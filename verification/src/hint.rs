use crate::keyboard::Key;
use vstd::prelude::*;

verus! {

/// What the pointer does in an input that a hint describes.
#[derive(Clone, Copy, Debug, PartialEq, Eq, Hash, Structural)]
pub enum MouseMotion {
    Lmb,
    Rmb,
    Mmb,
    ScrollUp,
    ScrollDown,
    Drag,
    LmbDrag,
    RmbDrag,
    MmbDrag,
}

/// The cursor icons that a tool can ask for.
#[derive(Clone, Copy, Debug, PartialEq, Eq, Hash, Structural)]
pub enum MouseCursorIcon {
    Default,
    ZoomIn,
    ZoomOut,
    Grabbing,
    Crosshair,
    Text,
    NSResize,
    EWResize,
    NESWResize,
    NWSEResize,
}

/// Keys that are pressed together.
#[derive(Debug, PartialEq, Eq)]
pub struct KeysGroup(pub Vec<Key>);

impl View for KeysGroup {
    type V = Seq<Key>;

    open spec fn view(&self) -> Seq<Key> {
        self.0@
    }
}

impl Clone for KeysGroup {
    fn clone(&self) -> (copy: Self)
        ensures
            copy@ == self@,
    {
        let keys = self.0.clone();
        assert(keys@ =~= self.0@);
        KeysGroup(keys)
    }
}

/// One input that the active tool listens to, and what it does.
#[derive(Debug, PartialEq, Eq)]
pub struct HintInfo {
    /// The key groups of the input; more than one where any of them does.
    pub key_groups: Vec<KeysGroup>,
    /// What the pointer does in it, if anything.
    pub mouse: Option<MouseMotion>,
    /// What the input does, in words.
    pub label: String,
    /// Whether the input adds to the one before it.
    pub plus: bool,
}

/// What a `HintInfo` says, with sequences in place of vectors and strings.
pub struct HintInfoView {
    pub key_groups: Seq<Seq<Key>>,
    pub mouse: Option<MouseMotion>,
    pub label: Seq<char>,
    pub plus: bool,
}

impl View for HintInfo {
    type V = HintInfoView;

    open spec fn view(&self) -> HintInfoView {
        HintInfoView {
            key_groups: self.key_groups@.map_values(|group: KeysGroup| group@),
            mouse: self.mouse,
            label: self.label@,
            plus: self.plus,
        }
    }
}

impl Clone for HintInfo {
    fn clone(&self) -> (copy: Self)
        ensures
            copy@ == self@,
    {
        let mut key_groups: Vec<KeysGroup> = Vec::new();
        let mut index: usize = 0;
        while index < self.key_groups.len()
            invariant
                index <= self.key_groups.len(),
                key_groups.len() == index,
                forall|i: int| 0 <= i < index ==> key_groups[i]@ == self.key_groups[i]@,
            decreases self.key_groups.len() - index,
        {
            key_groups.push(self.key_groups[index].clone());
            index = index + 1;
        }
        let copy = HintInfo {
            key_groups,
            mouse: self.mouse,
            label: self.label.clone(),
            plus: self.plus,
        };
        assert(copy@.key_groups =~= self@.key_groups);
        copy
    }
}

/// Hints that belong together.
#[derive(Debug, PartialEq, Eq)]
pub struct HintGroup(pub Vec<HintInfo>);

impl View for HintGroup {
    type V = Seq<HintInfoView>;

    open spec fn view(&self) -> Seq<HintInfoView> {
        self.0@.map_values(|info: HintInfo| info@)
    }
}

impl Clone for HintGroup {
    fn clone(&self) -> (copy: Self)
        ensures
            copy@ == self@,
    {
        let mut infos: Vec<HintInfo> = Vec::new();
        let mut index: usize = 0;
        while index < self.0.len()
            invariant
                index <= self.0.len(),
                infos.len() == index,
                forall|i: int| 0 <= i < index ==> infos[i]@ == self.0[i]@,
            decreases self.0.len() - index,
        {
            infos.push(self.0[index].clone());
            index = index + 1;
        }
        let copy = HintGroup(infos);
        assert(copy@ =~= self@);
        copy
    }
}

/// All the hints of one state of a tool, group by group.
#[derive(Debug, PartialEq, Eq)]
pub struct HintData(pub Vec<HintGroup>);

impl View for HintData {
    type V = Seq<Seq<HintInfoView>>;

    open spec fn view(&self) -> Seq<Seq<HintInfoView>> {
        self.0@.map_values(|group: HintGroup| group@)
    }
}

impl Clone for HintData {
    fn clone(&self) -> (copy: Self)
        ensures
            copy@ == self@,
    {
        let mut groups: Vec<HintGroup> = Vec::new();
        let mut index: usize = 0;
        while index < self.0.len()
            invariant
                index <= self.0.len(),
                groups.len() == index,
                forall|i: int| 0 <= i < index ==> groups[i]@ == self.0[i]@,
            decreases self.0.len() - index,
        {
            groups.push(self.0[index].clone());
            index = index + 1;
        }
        let copy = HintData(groups);
        assert(copy@ =~= self@);
        copy
    }
}

} // verus!
