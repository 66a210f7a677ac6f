use crate::default_mapping::default_binding_list;
use crate::default_mapping::default_bindings;
use crate::keyboard::Key;
use crate::keyboard::KeyStates;
use crate::keyboard::NUMBER_OF_KEYS;
use crate::message::ActionList;
use crate::message::Message;
use crate::message::MessageDiscriminant;
use crate::message::MessageView;
use crate::message::ToolMessageDiscriminant;
use crate::message::message_views;
use crate::input_preprocessor::InputPreprocessor;
use crate::text::remove_all;
use crate::text::without_pattern;
use vstd::string::*;
use std::collections::VecDeque;
use vstd::prelude::*;

verus! {

/// The kinds of raw input that can start an action.
#[derive(Clone, Copy, Debug, PartialEq, Eq, Hash, Structural)]
pub enum InputMapperMessage {
    PointerMove,
    MouseScroll,
    KeyUp(Key),
    KeyDown(Key),
}

/// One binding: the input `trigger` gives `action` while all the keys of
/// `modifiers` are held. The modifiers are keys that are held besides the
/// trigger's own key.
#[derive(Debug, PartialEq, Eq)]
pub struct MappingEntry {
    pub trigger: InputMapperMessage,
    pub modifiers: KeyStates,
    pub action: Message,
}

/// What a `MappingEntry` says.
pub struct MappingEntryView {
    pub trigger: InputMapperMessage,
    pub modifiers: Set<Key>,
    pub action: MessageView,
}

impl View for MappingEntry {
    type V = MappingEntryView;

    open spec fn view(&self) -> MappingEntryView {
        MappingEntryView {
            trigger: self.trigger,
            modifiers: self.modifiers@,
            action: self.action@,
        }
    }
}

impl Clone for MappingEntry {
    fn clone(&self) -> (copy: Self)
        ensures
            copy@ == self@,
    {
        MappingEntry {
            trigger: self.trigger,
            modifiers: self.modifiers,
            action: self.action.clone(),
        }
    }
}

/// The entries of `entries`, each as what it says.
pub open spec fn entry_views(entries: Seq<MappingEntry>) -> Seq<MappingEntryView> {
    entries.map_values(|entry: MappingEntry| entry@)
}

/// The actions that are legal now: those that occur in any group of `actions`.
pub open spec fn advertisement(actions: Seq<Vec<MessageDiscriminant>>) -> Set<MessageDiscriminant> {
    Set::new(
        |discriminant: MessageDiscriminant|
            exists|group: int, place: int|
                0 <= group < actions.len() && 0 <= place < actions[group]@.len()
                    && #[trigger] actions[group]@[place] == discriminant,
    )
}

/// Whether `discriminant` occurs in any group of `actions`.
pub fn advertises(actions: &ActionList, discriminant: MessageDiscriminant) -> (found: bool)
    ensures
        found == advertisement(actions@).contains(discriminant),
{
    let mut group: usize = 0;
    while group < actions.len()
        invariant
            group <= actions.len(),
            forall|g: int, p: int|
                0 <= g < group && 0 <= p < actions@[g]@.len() ==> #[trigger] actions@[g]@[p]
                    != discriminant,
        decreases actions.len() - group,
    {
        let members = &actions[group];
        let mut place: usize = 0;
        while place < members.len()
            invariant
                place <= members.len(),
                group < actions.len(),
                *members == actions@[group as int],
                forall|p: int| 0 <= p < place ==> members@[p] != discriminant,
            decreases members.len() - place,
        {
            if members[place] == discriminant {
                assert(actions@[group as int]@[place as int] == discriminant);
                return true;
            }
            place = place + 1;
        }
        group = group + 1;
    }
    false
}

/// Whether a binding may fire: all its modifiers are held, and its action is
/// advertised.
pub open spec fn entry_fires(
    entry: MappingEntryView,
    held: Set<Key>,
    advertised: Set<MessageDiscriminant>,
) -> bool {
    entry.modifiers.subset_of(held) && advertised.contains(entry.action.discriminant())
}

/// Whether the binding at `index` is the first of `entries` that may fire.
pub open spec fn fires_first(
    entries: Seq<MappingEntryView>,
    held: Set<Key>,
    advertised: Set<MessageDiscriminant>,
    index: int,
) -> bool {
    &&& 0 <= index < entries.len()
    &&& entry_fires(entries[index], held, advertised)
    &&& forall|earlier: int|
        0 <= earlier < index ==> !entry_fires(#[trigger] entries[earlier], held, advertised)
}

/// The action that a list of bindings gives: that of the first binding that
/// may fire, and none where no binding may.
pub open spec fn dispatched(
    entries: Seq<MappingEntryView>,
    held: Set<Key>,
    advertised: Set<MessageDiscriminant>,
) -> Option<MessageView> {
    if exists|index: int| fires_first(entries, held, advertised, index) {
        Some(entries[choose|index: int| fires_first(entries, held, advertised, index)].action)
    } else {
        None
    }
}

/// Whether `action` is the message that says `expected`, or no message where
/// `expected` is none.
pub open spec fn answers(action: Option<Message>, expected: Option<MessageView>) -> bool {
    match action {
        Some(message) => expected == Some(message@),
        None => expected.is_none(),
    }
}

/// Where the binding at `index` is the first that may fire, its action is the
/// one dispatched.
pub proof fn lemma_dispatched_first(
    entries: Seq<MappingEntryView>,
    held: Set<Key>,
    advertised: Set<MessageDiscriminant>,
    index: int,
)
    requires
        fires_first(entries, held, advertised, index),
    ensures
        dispatched(entries, held, advertised) == Some(entries[index].action),
{
    let chosen = choose|index: int| fires_first(entries, held, advertised, index);
    assert(fires_first(entries, held, advertised, chosen));
    if chosen < index {
        assert(!entry_fires(entries[chosen], held, advertised));
    } else if index < chosen {
        assert(!entry_fires(entries[index], held, advertised));
    }
}

/// Where no binding may fire, nothing is dispatched.
pub proof fn lemma_dispatched_none(
    entries: Seq<MappingEntryView>,
    held: Set<Key>,
    advertised: Set<MessageDiscriminant>,
)
    requires
        forall|index: int|
            0 <= index < entries.len() ==> !entry_fires(#[trigger] entries[index], held, advertised),
    ensures
        dispatched(entries, held, advertised).is_none(),
{
}

/// Whatever is dispatched comes from the first binding that may fire; where
/// nothing is dispatched, no binding may fire.
pub proof fn lemma_dispatched_is_first(
    entries: Seq<MappingEntryView>,
    held: Set<Key>,
    advertised: Set<MessageDiscriminant>,
)
    ensures
        match dispatched(entries, held, advertised) {
            Some(action) => exists|index: int| #[trigger]
                fires_first(entries, held, advertised, index) && entries[index].action == action,
            None => forall|index: int|
                0 <= index < entries.len() ==> !entry_fires(
                    #[trigger] entries[index],
                    held,
                    advertised,
                ),
        },
{
    if dispatched(entries, held, advertised).is_none() {
        assert forall|index: int| 0 <= index < entries.len() implies !entry_fires(
            #[trigger] entries[index],
            held,
            advertised,
        ) by {
            if entry_fires(entries[index], held, advertised) {
                lemma_some_fires_first(entries, held, advertised, index);
            }
        }
    }
}

/// Where some binding may fire, one of them is the first.
proof fn lemma_some_fires_first(
    entries: Seq<MappingEntryView>,
    held: Set<Key>,
    advertised: Set<MessageDiscriminant>,
    index: int,
) -> (first: int)
    requires
        0 <= index < entries.len(),
        entry_fires(entries[index], held, advertised),
    ensures
        0 <= first <= index,
        fires_first(entries, held, advertised, first),
    decreases index,
{
    if exists|earlier: int| 0 <= earlier < index && entry_fires(
        #[trigger] entries[earlier],
        held,
        advertised,
    ) {
        let earlier = choose|earlier: int| 0 <= earlier < index && entry_fires(
            #[trigger] entries[earlier],
            held,
            advertised,
        );
        lemma_some_fires_first(entries, held, advertised, earlier)
    } else {
        index
    }
}

/// The bindings of one trigger, in the order in which they are tried.
#[derive(Debug, PartialEq, Eq)]
pub struct KeyMappingEntries(pub Vec<MappingEntry>);

impl View for KeyMappingEntries {
    type V = Seq<MappingEntryView>;

    open spec fn view(&self) -> Seq<MappingEntryView> {
        entry_views(self.0@)
    }
}

impl KeyMappingEntries {
    /// The list without bindings.
    pub fn new() -> (entries: KeyMappingEntries)
        ensures
            entries@ == Seq::<MappingEntryView>::empty(),
    {
        let entries = KeyMappingEntries(Vec::new());
        assert(entries@ =~= Seq::<MappingEntryView>::empty());
        entries
    }

    /// As many empty lists as there are keys.
    pub fn key_array() -> (lists: Vec<KeyMappingEntries>)
        ensures
            lists@.len() == NUMBER_OF_KEYS,
            forall|index: int|
                0 <= index < lists@.len() ==> (#[trigger] lists@[index])@
                    == Seq::<MappingEntryView>::empty(),
    {
        let mut lists: Vec<KeyMappingEntries> = Vec::new();
        let mut index: usize = 0;
        while index < NUMBER_OF_KEYS
            invariant
                index <= NUMBER_OF_KEYS,
                lists@.len() == index,
                forall|i: int|
                    0 <= i < lists@.len() ==> (#[trigger] lists@[i])@
                        == Seq::<MappingEntryView>::empty(),
            decreases NUMBER_OF_KEYS - index,
        {
            lists.push(KeyMappingEntries::new());
            index = index + 1;
        }
        lists
    }

    /// Adds `entry` behind the bindings that are there.
    pub fn push(&mut self, entry: MappingEntry)
        ensures
            final(self)@ == old(self)@.push(entry@),
    {
        self.0.push(entry);
        assert(self@ =~= old(self)@.push(entry@));
    }

    /// The action of the first binding whose modifiers are all held in `keys`
    /// and whose action is advertised in `actions`, if there is such a binding.
    pub fn match_mapping(&self, keys: &KeyStates, actions: &ActionList) -> (action: Option<Message>)
        ensures
            answers(action, dispatched(self@, keys@, advertisement(actions@))),
            action matches Some(message) ==> advertisement(actions@).contains(
                message@.discriminant(),
            ),
    {
        let mut index: usize = 0;
        while index < self.0.len()
            invariant
                index <= self.0.len(),
                forall|earlier: int|
                    0 <= earlier < index ==> !entry_fires(
                        #[trigger] self@[earlier],
                        keys@,
                        advertisement(actions@),
                    ),
            decreases self.0.len() - index,
        {
            let entry = &self.0[index];
            assert(self@[index as int] == entry@);
            let all_required_modifiers_pressed = keys.is_subset_of(&entry.modifiers);
            if all_required_modifiers_pressed && advertises(
                actions,
                entry.action.to_discriminant(),
            ) {
                proof {
                    lemma_dispatched_first(
                        self@,
                        keys@,
                        advertisement(actions@),
                        index as int,
                    );
                }
                return Some(entry.action.clone());
            }
            index = index + 1;
        }
        proof {
            lemma_dispatched_none(self@, keys@, advertisement(actions@));
        }
        None
    }
}

impl Default for KeyMappingEntries {
    fn default() -> (entries: KeyMappingEntries)
        ensures
            entries@ == Seq::<MappingEntryView>::empty(),
    {
        KeyMappingEntries::new()
    }
}

/// The test for bindings with exactly `count` modifiers.
pub open spec fn has_modifier_count(count: nat) -> spec_fn(MappingEntryView) -> bool {
    |entry: MappingEntryView| entry.modifiers.len() == count
}

/// The test for bindings of `trigger`.
pub open spec fn has_trigger(trigger: InputMapperMessage) -> spec_fn(MappingEntryView) -> bool {
    |entry: MappingEntryView| entry.trigger == trigger
}

/// Whether no binding of `entries` stands behind one with fewer modifiers.
pub open spec fn most_modifiers_first(entries: Seq<MappingEntryView>) -> bool {
    forall|earlier: int, later: int|
        0 <= earlier < later < entries.len() ==> (#[trigger] entries[earlier]).modifiers.len() >= (
        #[trigger] entries[later]).modifiers.len()
}

/// Whether the bindings with any one number of modifiers are the same in
/// `sorted` and in `declared`, and in the same order.
pub open spec fn keeps_declaration_order(
    sorted: Seq<MappingEntryView>,
    declared: Seq<MappingEntryView>,
) -> bool {
    forall|count: nat| #[trigger]
        sorted.filter(has_modifier_count(count)) == declared.filter(has_modifier_count(count))
}

/// Whether `sorted` holds the bindings of `declared` with those of more
/// modifiers first, and those of equally many in the order of `declared`.
/// There is exactly one such sequence for each `declared`.
pub open spec fn is_priority_order_of(
    sorted: Seq<MappingEntryView>,
    declared: Seq<MappingEntryView>,
) -> bool {
    most_modifiers_first(sorted) && keeps_declaration_order(sorted, declared)
}

/// A sequence without an item that passes `test` has nothing left after
/// filtering by it.
proof fn lemma_filter_nothing(entries: Seq<MappingEntryView>, test: spec_fn(MappingEntryView) -> bool)
    requires
        forall|index: int| 0 <= index < entries.len() ==> !test(#[trigger] entries[index]),
    ensures
        entries.filter(test) == Seq::<MappingEntryView>::empty(),
    decreases entries.len(),
{
    reveal(Seq::filter);
    if entries.len() > 0 {
        lemma_filter_nothing(entries.drop_last(), test);
    }
}

/// Putting a binding behind all that have at least as many modifiers, and
/// before all that have fewer, keeps a list in priority order.
proof fn lemma_insert_in_priority_order(
    sorted: Seq<MappingEntryView>,
    declared: Seq<MappingEntryView>,
    entry: MappingEntryView,
    place: int,
)
    requires
        is_priority_order_of(sorted, declared),
        0 <= place <= sorted.len(),
        forall|index: int|
            0 <= index < place ==> (#[trigger] sorted[index]).modifiers.len()
                >= entry.modifiers.len(),
        forall|index: int|
            place <= index < sorted.len() ==> (#[trigger] sorted[index]).modifiers.len()
                < entry.modifiers.len(),
    ensures
        is_priority_order_of(sorted.insert(place, entry), declared.push(entry)),
{
    let grown = sorted.insert(place, entry);
    sorted.insert_ensures(place, entry);
    assert(most_modifiers_first(grown)) by {
        assert forall|earlier: int, later: int| 0 <= earlier < later < grown.len() implies (
        #[trigger] grown[earlier]).modifiers.len() >= (#[trigger] grown[later]).modifiers.len() by {
            if later < place {
                assert(grown[later] == sorted[later]);
                assert(grown[earlier] == sorted[earlier]);
            } else if later == place {
                assert(grown[earlier] == sorted[earlier]);
            } else {
                assert(grown[later] == sorted[later - 1]);
                if earlier < place {
                    assert(grown[earlier] == sorted[earlier]);
                } else if earlier > place {
                    assert(grown[earlier] == sorted[earlier - 1]);
                }
            }
        }
    }
    let head = sorted.subrange(0, place);
    let tail = sorted.subrange(place, sorted.len() as int);
    assert(sorted =~= head + tail);
    assert(grown =~= head.push(entry) + tail);
    assert forall|count: nat| #[trigger]
        grown.filter(has_modifier_count(count)) == declared.push(entry).filter(
            has_modifier_count(count),
        ) by {
        let test = has_modifier_count(count);
        Seq::filter_distributes_over_add(head, tail, test);
        Seq::filter_distributes_over_add(head.push(entry), tail, test);
        head.lemma_filter_push(entry, test);
        declared.lemma_filter_push(entry, test);
        assert(sorted.filter(test) == declared.filter(test));
        if test(entry) {
            assert forall|index: int| 0 <= index < tail.len() implies !test(
                #[trigger] tail[index],
            ) by {
                assert(tail[index] == sorted[place + index]);
            }
            lemma_filter_nothing(tail, test);
            assert(head.filter(test) + Seq::<MappingEntryView>::empty() =~= head.filter(test));
            assert(head.filter(test).push(entry) + Seq::<MappingEntryView>::empty()
                =~= head.filter(test).push(entry));
        }
    }
}

impl KeyMappingEntries {
    /// The same bindings with those of more modifiers first. Bindings with
    /// equally many modifiers keep the order that they have in `self`.
    pub fn sorted_by_modifier_count(&self) -> (sorted: KeyMappingEntries)
        ensures
            is_priority_order_of(sorted@, self@),
            sorted@.len() == self@.len(),
            forall|index: int|
                0 <= index < sorted@.len() ==> self@.contains(#[trigger] sorted@[index]),
    {
        let mut sorted: Vec<MappingEntry> = Vec::new();
        let mut next: usize = 0;
        proof {
            assert(self@.take(0) =~= Seq::<MappingEntryView>::empty());
            assert(entry_views(sorted@) =~= Seq::<MappingEntryView>::empty());
            assert forall|count: nat| #[trigger]
                entry_views(sorted@).filter(has_modifier_count(count)) == self@.take(0).filter(
                    has_modifier_count(count),
                ) by {}
        }
        while next < self.0.len()
            invariant
                next <= self.0.len(),
                sorted@.len() == next,
                is_priority_order_of(entry_views(sorted@), self@.take(next as int)),
                forall|index: int|
                    0 <= index < sorted@.len() ==> self@.contains(
                        #[trigger] entry_views(sorted@)[index],
                    ),
            decreases self.0.len() - next,
        {
            let entry = self.0[next].clone();
            let count = entry.modifiers.ones();
            let mut place: usize = 0;
            while place < sorted.len() && sorted[place].modifiers.ones() >= count
                invariant
                    place <= sorted.len(),
                    count == entry@.modifiers.len(),
                    forall|index: int|
                        0 <= index < place ==> (#[trigger] entry_views(
                            sorted@,
                        )[index]).modifiers.len() >= count,
                decreases sorted.len() - place,
            {
                place = place + 1;
            }
            proof {
                let before = entry_views(sorted@);
                assert forall|index: int| place <= index < before.len() implies (
                #[trigger] before[index]).modifiers.len() < entry@.modifiers.len() by {
                    assert(before[place as int].modifiers.len() < count);
                    if index > place {
                        assert(before[place as int].modifiers.len()
                            >= before[index].modifiers.len());
                    }
                }
                lemma_insert_in_priority_order(
                    before,
                    self@.take(next as int),
                    entry@,
                    place as int,
                );
                assert(self@.take(next as int).push(entry@) =~= self@.take(next as int + 1));
                assert(self@[next as int] == entry@);
            }
            let ghost before = entry_views(sorted@);
            sorted.insert(place, entry);
            proof {
                let after = entry_views(sorted@);
                assert(after =~= before.insert(place as int, entry@));
                before.insert_ensures(place as int, entry@);
                assert forall|index: int| 0 <= index < after.len() implies self@.contains(
                    #[trigger] after[index],
                ) by {
                    if index < place {
                        assert(after[index] == before[index]);
                    } else if index > place {
                        assert(after[index] == before[index - 1]);
                    }
                }
            }
            next = next + 1;
        }
        assert(self@.take(next as int) =~= self@);
        KeyMappingEntries(sorted)
    }
}

/// The bindings that four parts of a table hold for `trigger`.
spec fn slot(
    key_up: Seq<KeyMappingEntries>,
    key_down: Seq<KeyMappingEntries>,
    pointer_move: KeyMappingEntries,
    mouse_scroll: KeyMappingEntries,
    trigger: InputMapperMessage,
) -> Seq<MappingEntryView> {
    match trigger {
        InputMapperMessage::KeyDown(key) => key_down[key.spec_index() as int]@,
        InputMapperMessage::KeyUp(key) => key_up[key.spec_index() as int]@,
        InputMapperMessage::PointerMove => pointer_move@,
        InputMapperMessage::MouseScroll => mouse_scroll@,
    }
}

/// Each list of `lists` in priority order.
fn sorted_lists(lists: &Vec<KeyMappingEntries>) -> (sorted: Vec<KeyMappingEntries>)
    ensures
        sorted@.len() == lists@.len(),
        forall|index: int|
            0 <= index < sorted@.len() ==> is_priority_order_of(
                (#[trigger] sorted@[index])@,
                lists@[index]@,
            ),
{
    let mut sorted: Vec<KeyMappingEntries> = Vec::new();
    let mut index: usize = 0;
    while index < lists.len()
        invariant
            index <= lists.len(),
            sorted@.len() == index,
            forall|i: int|
                0 <= i < sorted@.len() ==> is_priority_order_of(
                    (#[trigger] sorted@[i])@,
                    lists@[i]@,
                ),
        decreases lists.len() - index,
    {
        sorted.push(lists[index].sorted_by_modifier_count());
        index = index + 1;
    }
    sorted
}

/// The table of all bindings: for each trigger the list of its bindings, in
/// the order in which they are tried. It is built once and read from then on.
#[derive(Debug, PartialEq, Eq)]
pub struct Mapping {
    key_up: Vec<KeyMappingEntries>,
    key_down: Vec<KeyMappingEntries>,
    pointer_move: KeyMappingEntries,
    mouse_scroll: KeyMappingEntries,
}

impl Mapping {
    /// The bindings of `trigger`, in the order in which they are tried.
    pub closed spec fn bindings(&self, trigger: InputMapperMessage) -> Seq<MappingEntryView> {
        slot(self.key_up@, self.key_down@, self.pointer_move, self.mouse_scroll, trigger)
    }

    /// What holds of every table: there is one list for each key and each
    /// direction, and in every list the bindings of more modifiers come first.
    #[verifier::type_invariant]
    pub closed spec fn well_formed(&self) -> bool {
        &&& self.key_up@.len() == NUMBER_OF_KEYS
        &&& self.key_down@.len() == NUMBER_OF_KEYS
        &&& forall|trigger: InputMapperMessage|
            most_modifiers_first(#[trigger] self.bindings(trigger))
    }

    /// The table of the bindings `declared`. The list of each trigger holds the
    /// bindings that `declared` has for it, those of more modifiers first, and
    /// those of equally many in the order of `declared`.
    pub fn from_bindings(declared: &Vec<MappingEntry>) -> (table: Mapping)
        ensures
            table.well_formed(),
            forall|trigger: InputMapperMessage|
                is_priority_order_of(
                    #[trigger] table.bindings(trigger),
                    entry_views(declared@).filter(has_trigger(trigger)),
                ),
    {
        let mut key_up = KeyMappingEntries::key_array();
        let mut key_down = KeyMappingEntries::key_array();
        let mut pointer_move = KeyMappingEntries::new();
        let mut mouse_scroll = KeyMappingEntries::new();
        let mut next: usize = 0;
        proof {
            assert(entry_views(declared@).take(0) =~= Seq::<MappingEntryView>::empty());
        }
        while next < declared.len()
            invariant
                next <= declared.len(),
                key_up@.len() == NUMBER_OF_KEYS,
                key_down@.len() == NUMBER_OF_KEYS,
                forall|trigger: InputMapperMessage| #[trigger]
                    slot(key_up@, key_down@, pointer_move, mouse_scroll, trigger) == entry_views(
                        declared@,
                    ).take(next as int).filter(has_trigger(trigger)),
            decreases declared.len() - next,
        {
            let entry = declared[next].clone();
            let ghost before_up = key_up@;
            let ghost before_down = key_down@;
            let ghost before_move = pointer_move;
            let ghost before_scroll = mouse_scroll;
            let ghost added = entry@;
            match entry.trigger {
                InputMapperMessage::KeyDown(key) => {
                    let index = key.index();
                    key_down[index].push(entry);
                },
                InputMapperMessage::KeyUp(key) => {
                    let index = key.index();
                    key_up[index].push(entry);
                },
                InputMapperMessage::PointerMove => {
                    pointer_move.push(entry);
                },
                InputMapperMessage::MouseScroll => {
                    mouse_scroll.push(entry);
                },
            }
            proof {
                Key::lemma_index_bijective();
                let seen = entry_views(declared@).take(next as int);
                assert(seen.push(added) =~= entry_views(declared@).take(next as int + 1));
                assert forall|trigger: InputMapperMessage| #[trigger]
                    slot(key_up@, key_down@, pointer_move, mouse_scroll, trigger)
                        == seen.push(added).filter(has_trigger(trigger)) by {
                    seen.lemma_filter_push(added, has_trigger(trigger));
                    assert(slot(before_up, before_down, before_move, before_scroll, trigger)
                        == seen.filter(has_trigger(trigger)));
                }
            }
            next = next + 1;
        }
        assert(entry_views(declared@).take(next as int) =~= entry_views(declared@));
        let sorted_up = sorted_lists(&key_up);
        let sorted_down = sorted_lists(&key_down);
        let sorted_move = pointer_move.sorted_by_modifier_count();
        let sorted_scroll = mouse_scroll.sorted_by_modifier_count();
        proof {
            assert forall|trigger: InputMapperMessage|
                is_priority_order_of(
                    #[trigger] slot(
                        sorted_up@,
                        sorted_down@,
                        sorted_move,
                        sorted_scroll,
                        trigger,
                    ),
                    entry_views(declared@).filter(has_trigger(trigger)),
                ) by {
                Key::lemma_index_bijective();
                assert(slot(key_up@, key_down@, pointer_move, mouse_scroll, trigger)
                    == entry_views(declared@).filter(has_trigger(trigger)));
            }
        }
        Mapping {
            key_up: sorted_up,
            key_down: sorted_down,
            pointer_move: sorted_move,
            mouse_scroll: sorted_scroll,
        }
    }

    /// The action that the input `message` gives while the keys `keys` are held
    /// and the actions `actions` are advertised: that of the first binding of
    /// `message` whose modifiers are all held and whose action is advertised.
    /// No such binding, no action.
    pub fn match_message(
        &self,
        message: InputMapperMessage,
        keys: &KeyStates,
        actions: &ActionList,
    ) -> (action: Option<Message>)
        ensures
            answers(
                action,
                dispatched(self.bindings(message), keys@, advertisement(actions@)),
            ),
            action matches Some(found) ==> advertisement(actions@).contains(
                found@.discriminant(),
            ),
    {
        proof {
            use_type_invariant(self);
        }
        let list = match message {
            InputMapperMessage::KeyDown(key) => &self.key_down[key.index()],
            InputMapperMessage::KeyUp(key) => &self.key_up[key.index()],
            InputMapperMessage::PointerMove => &self.pointer_move,
            InputMapperMessage::MouseScroll => &self.mouse_scroll,
        };
        list.match_mapping(keys, actions)
    }
}

/// An action that is not advertised is never dispatched, whatever is bound
/// to the input and whichever keys are held.
pub proof fn lemma_unadvertised_never_fires(
    entries: Seq<MappingEntryView>,
    held: Set<Key>,
    advertised: Set<MessageDiscriminant>,
)
    ensures
        dispatched(entries, held, advertised) matches Some(action) ==> advertised.contains(
            action.discriminant(),
        ),
        forall|index: int|
            0 <= index < entries.len() && !advertised.contains(
                (#[trigger] entries[index]).action.discriminant(),
            ) ==> !entry_fires(entries[index], held, advertised),
{
    lemma_dispatched_is_first(entries, held, advertised);
}

/// Dispatching the same input twice, with the same keys held and the same
/// actions advertised, gives the same answer both times.
pub proof fn lemma_dispatch_is_repeatable(
    entries: Seq<MappingEntryView>,
    held: Set<Key>,
    advertised: Set<MessageDiscriminant>,
    first: Option<Message>,
    second: Option<Message>,
)
    requires
        answers(first, dispatched(entries, held, advertised)),
        answers(second, dispatched(entries, held, advertised)),
    ensures
        match (first, second) {
            (Some(one), Some(other)) => one@ == other@,
            (None, None) => true,
            _ => false,
        },
{
}

/// In a list that has the bindings of more modifiers first, the binding that
/// is dispatched has at least as many modifiers as any binding that may fire.
pub proof fn lemma_most_specific_binding_wins(
    entries: Seq<MappingEntryView>,
    held: Set<Key>,
    advertised: Set<MessageDiscriminant>,
    other: int,
) -> (selected: int)
    requires
        most_modifiers_first(entries),
        0 <= other < entries.len(),
        entry_fires(entries[other], held, advertised),
    ensures
        fires_first(entries, held, advertised, selected),
        dispatched(entries, held, advertised) == Some(entries[selected].action),
        entries[selected].modifiers.len() >= entries[other].modifiers.len(),
{
    let selected = lemma_some_fires_first(entries, held, advertised, other);
    lemma_dispatched_first(entries, held, advertised, selected);
    selected
}

/// Of the declared bindings of one trigger that may fire, the table selects
/// one with the most modifiers, wherever it stands in the declaration: a
/// binding is never shadowed by one that asks for fewer keys.
pub proof fn lemma_declared_priority(
    sorted: Seq<MappingEntryView>,
    declared: Seq<MappingEntryView>,
    trigger: InputMapperMessage,
    held: Set<Key>,
    advertised: Set<MessageDiscriminant>,
    other: int,
) -> (selected: int)
    requires
        is_priority_order_of(sorted, declared.filter(has_trigger(trigger))),
        0 <= other < declared.len(),
        declared[other].trigger == trigger,
        entry_fires(declared[other], held, advertised),
    ensures
        0 <= selected < declared.len(),
        declared[selected].trigger == trigger,
        entry_fires(declared[selected], held, advertised),
        dispatched(sorted, held, advertised) == Some(declared[selected].action),
        declared[selected].modifiers.len() >= declared[other].modifiers.len(),
{
    let grouped = declared.filter(has_trigger(trigger));
    let rival = declared[other];
    let count = rival.modifiers.len();
    declared.lemma_filter_contains(has_trigger(trigger), other);
    let in_group = choose|index: int| 0 <= index < grouped.len() && grouped[index] == rival;
    grouped.lemma_filter_contains(has_modifier_count(count), in_group);
    assert(sorted.filter(has_modifier_count(count)) == grouped.filter(has_modifier_count(count)));
    sorted.lemma_filter_contains_rev(has_modifier_count(count), rival);
    let in_sorted = choose|index: int| 0 <= index < sorted.len() && sorted[index] == rival;
    let first = lemma_most_specific_binding_wins(sorted, held, advertised, in_sorted);
    lemma_sorted_entry_is_declared(sorted, declared, trigger, first)
}

/// A binding of the sorted list of a trigger is one of the declared bindings
/// of that trigger.
proof fn lemma_sorted_entry_is_declared(
    sorted: Seq<MappingEntryView>,
    declared: Seq<MappingEntryView>,
    trigger: InputMapperMessage,
    place: int,
) -> (index: int)
    requires
        is_priority_order_of(sorted, declared.filter(has_trigger(trigger))),
        0 <= place < sorted.len(),
    ensures
        0 <= index < declared.len(),
        declared[index] == sorted[place],
        declared[index].trigger == trigger,
{
    let grouped = declared.filter(has_trigger(trigger));
    let entry = sorted[place];
    let count = entry.modifiers.len();
    sorted.lemma_filter_contains(has_modifier_count(count), place);
    assert(sorted.filter(has_modifier_count(count)) == grouped.filter(has_modifier_count(count)));
    grouped.lemma_filter_contains_rev(has_modifier_count(count), entry);
    let back = choose|index: int| 0 <= index < grouped.len() && grouped[index] == entry;
    declared.lemma_filter_pred(has_trigger(trigger), back);
    declared.lemma_filter_contains_rev(has_trigger(trigger), entry);
    choose|index: int| 0 <= index < declared.len() && declared[index] == entry
}

/// The test for bindings that may fire.
pub open spec fn may_fire(held: Set<Key>, advertised: Set<MessageDiscriminant>) -> spec_fn(
    MappingEntryView,
) -> bool {
    |entry: MappingEntryView| entry_fires(entry, held, advertised)
}

/// The test for bindings that may fire and have exactly `count` modifiers.
spec fn may_fire_with(held: Set<Key>, advertised: Set<MessageDiscriminant>, count: nat) -> spec_fn(
    MappingEntryView,
) -> bool {
    |entry: MappingEntryView|
        entry_fires(entry, held, advertised) && entry.modifiers.len() == count
}

/// Filtering keeps the order: the first item that passes both `kept` and
/// `wanted` is, among the items that pass `kept`, the first that passes
/// `wanted`.
proof fn lemma_filter_keeps_first(
    entries: Seq<MappingEntryView>,
    kept: spec_fn(MappingEntryView) -> bool,
    wanted: spec_fn(MappingEntryView) -> bool,
    index: int,
) -> (place: int)
    requires
        0 <= index < entries.len(),
        kept(entries[index]),
        wanted(entries[index]),
        forall|earlier: int|
            0 <= earlier < index ==> !(kept(#[trigger] entries[earlier]) && wanted(
                entries[earlier],
            )),
    ensures
        0 <= place < entries.filter(kept).len(),
        entries.filter(kept)[place] == entries[index],
        forall|earlier: int|
            0 <= earlier < place ==> !wanted(#[trigger] entries.filter(kept)[earlier]),
{
    let head = entries.take(index);
    let tail = entries.skip(index + 1);
    assert(entries =~= head.push(entries[index]) + tail);
    Seq::filter_distributes_over_add(head.push(entries[index]), tail, kept);
    head.lemma_filter_push(entries[index], kept);
    let place = head.filter(kept).len() as int;
    assert forall|earlier: int| 0 <= earlier < place implies !wanted(
        #[trigger] entries.filter(kept)[earlier],
    ) by {
        let item = head.filter(kept)[earlier];
        head.lemma_filter_pred(kept, earlier);
        assert(head.filter(kept).contains(item));
        head.lemma_filter_contains_rev(kept, item);
        let at = choose|at: int| 0 <= at < head.len() && head[at] == item;
        assert(entries[at] == item);
    }
    place
}

/// Whether the declared binding at `index` is the one that its trigger
/// selects: it may fire, no binding of the trigger that may fire has more
/// modifiers, and none with equally many stands before it.
pub open spec fn is_preferred(
    declared: Seq<MappingEntryView>,
    trigger: InputMapperMessage,
    held: Set<Key>,
    advertised: Set<MessageDiscriminant>,
    index: int,
) -> bool {
    &&& 0 <= index < declared.len()
    &&& declared[index].trigger == trigger
    &&& entry_fires(declared[index], held, advertised)
    &&& forall|other: int|
        0 <= other < declared.len() && (#[trigger] declared[other]).trigger == trigger
            && entry_fires(declared[other], held, advertised) ==> {
            ||| declared[other].modifiers.len() < declared[index].modifiers.len()
            ||| (declared[other].modifiers.len() == declared[index].modifiers.len() && index
                <= other)
        }
}

/// The table dispatches the action of the preferred binding: of the declared
/// bindings of the trigger that may fire, the one with the most modifiers,
/// and among those with equally many the one declared first.
pub proof fn lemma_preferred_binding_is_dispatched(
    sorted: Seq<MappingEntryView>,
    declared: Seq<MappingEntryView>,
    trigger: InputMapperMessage,
    held: Set<Key>,
    advertised: Set<MessageDiscriminant>,
    index: int,
)
    requires
        is_priority_order_of(sorted, declared.filter(has_trigger(trigger))),
        is_preferred(declared, trigger, held, advertised, index),
    ensures
        dispatched(sorted, held, advertised) == Some(declared[index].action),
{
    let grouped = declared.filter(has_trigger(trigger));
    let most = declared[index].modifiers.len();
    let fires = may_fire(held, advertised);
    let in_group = lemma_filter_keeps_first(
        declared,
        has_trigger(trigger),
        may_fire_with(held, advertised, most),
        index,
    );
    let in_count = lemma_filter_keeps_first(grouped, has_modifier_count(most), fires, in_group);
    let same_count = grouped.filter(has_modifier_count(most));
    assert(sorted.filter(has_modifier_count(most)) == same_count);
    assert(same_count.contains(same_count[in_count]));
    sorted.lemma_filter_contains_rev(has_modifier_count(most), declared[index]);
    let in_sorted = choose|at: int| 0 <= at < sorted.len() && sorted[at] == declared[index];
    let first = lemma_most_specific_binding_wins(sorted, held, advertised, in_sorted);
    let back = lemma_sorted_entry_is_declared(sorted, declared, trigger, first);
    assert(declared[back].modifiers.len() == most);
    let place = lemma_filter_keeps_first(sorted, has_modifier_count(most), fires, first);
    if place < in_count {
        assert(fires(same_count[place]));
    } else if in_count < place {
        assert(fires(same_count[in_count]));
    }
}

/// Where no declared binding of the trigger may fire, the table dispatches
/// nothing.
pub proof fn lemma_nothing_declared_nothing_dispatched(
    sorted: Seq<MappingEntryView>,
    declared: Seq<MappingEntryView>,
    trigger: InputMapperMessage,
    held: Set<Key>,
    advertised: Set<MessageDiscriminant>,
)
    requires
        is_priority_order_of(sorted, declared.filter(has_trigger(trigger))),
        forall|index: int|
            0 <= index < declared.len() && (#[trigger] declared[index]).trigger == trigger
                ==> !entry_fires(declared[index], held, advertised),
    ensures
        dispatched(sorted, held, advertised).is_none(),
{
    assert forall|place: int| 0 <= place < sorted.len() implies !entry_fires(
        #[trigger] sorted[place],
        held,
        advertised,
    ) by {
        let index = lemma_sorted_entry_is_declared(sorted, declared, trigger, place);
        assert(declared[index].trigger == trigger);
    }
    lemma_dispatched_none(sorted, held, advertised);
}

/// Whether an action is never shown as a hint: the choice of a tool, and the
/// actions that concern the whole editor.
pub open spec fn spec_is_hidden_from_hints(discriminant: MessageDiscriminant) -> bool {
    match discriminant {
        MessageDiscriminant::Tool(ToolMessageDiscriminant::SelectTool) => true,
        MessageDiscriminant::Global(_) => true,
        _ => false,
    }
}

/// Whether an action is never shown as a hint.
pub fn is_hidden_from_hints(discriminant: MessageDiscriminant) -> (hidden: bool)
    ensures
        hidden == spec_is_hidden_from_hints(discriminant),
{
    match discriminant {
        MessageDiscriminant::Tool(ToolMessageDiscriminant::SelectTool) => true,
        MessageDiscriminant::Global(_) => true,
        _ => false,
    }
}

/// The actions that hints may show: those advertised, but for the hidden ones.
pub open spec fn hint_candidates(actions: Seq<Vec<MessageDiscriminant>>) -> Set<
    MessageDiscriminant,
> {
    advertisement(actions).filter(
        |discriminant: MessageDiscriminant| !spec_is_hidden_from_hints(discriminant),
    )
}

/// The hint of one key: the action of its first binding that `shown` holds,
/// whatever modifiers the binding asks for.
pub open spec fn hint_of(entries: Seq<MappingEntryView>, shown: Set<MessageDiscriminant>) -> Option<
    MessageDiscriminant,
> {
    match dispatched(entries, Set::<Key>::full(), shown) {
        Some(action) => Some(action.discriminant()),
        None => None,
    }
}

/// What one key adds to the hints: its name and the name of its action, and
/// nothing where it has no hint.
pub open spec fn hint_entry(key: Key, hint: Option<MessageDiscriminant>) -> Seq<char> {
    match hint {
        Some(discriminant) => key.spec_name() + ": "@ + discriminant.spec_name() + ", "@,
        None => Seq::<char>::empty(),
    }
}

impl KeyMappingEntries {
    /// The action of the first binding whose action is advertised in `actions`
    /// and may be shown as a hint. The modifiers are not looked at.
    pub fn first_hint(&self, actions: &ActionList) -> (hint: Option<MessageDiscriminant>)
        ensures
            hint == hint_of(self@, hint_candidates(actions@)),
    {
        let ghost shown = hint_candidates(actions@);
        let mut index: usize = 0;
        while index < self.0.len()
            invariant
                index <= self.0.len(),
                shown == hint_candidates(actions@),
                forall|earlier: int|
                    0 <= earlier < index ==> !entry_fires(
                        #[trigger] self@[earlier],
                        Set::<Key>::full(),
                        shown,
                    ),
            decreases self.0.len() - index,
        {
            let entry = &self.0[index];
            assert(self@[index as int] == entry@);
            let discriminant = entry.action.to_discriminant();
            if !is_hidden_from_hints(discriminant) && advertises(actions, discriminant) {
                proof {
                    lemma_dispatched_first(self@, Set::<Key>::full(), shown, index as int);
                }
                return Some(discriminant);
            }
            index = index + 1;
        }
        proof {
            lemma_dispatched_none(self@, Set::<Key>::full(), shown);
        }
        None
    }
}

impl Mapping {
    /// The hint of `key`: the first action bound to pressing it that is
    /// advertised in `actions` and may be shown.
    pub fn key_down_hint(&self, key: Key, actions: &ActionList) -> (hint: Option<
        MessageDiscriminant,
    >)
        ensures
            hint == hint_of(
                self.bindings(InputMapperMessage::KeyDown(key)),
                hint_candidates(actions@),
            ),
    {
        proof {
            use_type_invariant(self);
        }
        self.key_down[key.index()].first_hint(actions)
    }
}

/// Turns raw input into actions by a table of bindings.
#[derive(Debug, PartialEq, Eq)]
pub struct InputMapper {
    mapping: Mapping,
}

impl InputMapper {
    /// The mapper that uses `mapping`.
    pub fn new(mapping: Mapping) -> (mapper: InputMapper)
        ensures
            forall|trigger: InputMapperMessage| #[trigger]
                mapper.bindings(trigger) == mapping.bindings(trigger),
    {
        InputMapper { mapping }
    }

    /// The bindings of `trigger`, in the order in which they are tried.
    pub closed spec fn bindings(&self, trigger: InputMapperMessage) -> Seq<MappingEntryView> {
        self.mapping.bindings(trigger)
    }

    /// The hints of the keys whose index is below `bound`, in the order of
    /// the keys, one after the other.
    pub open spec fn hint_text(&self, shown: Set<MessageDiscriminant>, bound: nat) -> Seq<char>
        decreases bound,
    {
        if bound == 0 {
            Seq::<char>::empty()
        } else {
            let key = Key::spec_from_index((bound - 1) as nat);
            self.hint_text(shown, (bound - 1) as nat) + hint_entry(
                key,
                hint_of(self.bindings(InputMapperMessage::KeyDown(key)), shown),
            )
        }
    }

    /// A line that tells which keys do something now. Every key adds at most
    /// one hint, the first action bound to pressing it that is advertised in
    /// `actions`; the choice of a tool and the actions of the whole editor are
    /// never shown. The hints stand in the order of the keys, each as the
    /// key's name, a colon and the action's name, with a comma behind it.
    /// At the end every `Key` is taken out of the line.
    pub fn hints(&self, actions: ActionList) -> (output: String)
        ensures
            output@ == without_pattern(
                self.hint_text(hint_candidates(actions@), NUMBER_OF_KEYS as nat),
                "Key"@,
            ),
    {
        let ghost shown = hint_candidates(actions@);
        let mut output = String::new();
        let mut index: usize = 0;
        while index < NUMBER_OF_KEYS
            invariant
                index <= NUMBER_OF_KEYS,
                shown == hint_candidates(actions@),
                output@ == self.hint_text(shown, index as nat),
            decreases NUMBER_OF_KEYS - index,
        {
            match Key::from_index(index) {
                Some(key) => {
                    let hint = self.mapping.key_down_hint(key, &actions);
                    let ghost before = output@;
                    match hint {
                        Some(discriminant) => {
                            output.append(key.name());
                            output.append(": ");
                            output.append(discriminant.name());
                            output.append(", ");
                            assert(output@ =~= before + hint_entry(key, hint));
                        },
                        None => {
                            assert(output@ =~= before + hint_entry(key, hint));
                        },
                    }
                },
                None => {},
            }
            index = index + 1;
        }
        remove_all(output.as_str(), "Key")
    }

    /// Gives the action of one raw input, if it has one, to `responses`: the
    /// action of the first binding of `message` whose modifiers are all held
    /// and whose action is advertised. At most one message is added.
    pub fn process_action(
        &mut self,
        message: InputMapperMessage,
        data: (&InputPreprocessor, ActionList),
        responses: &mut VecDeque<Message>,
    )
        ensures
            forall|trigger: InputMapperMessage| #[trigger]
                final(self).bindings(trigger) == old(self).bindings(trigger),
            message_views(final(responses)@) == match dispatched(
                old(self).bindings(message),
                data.0.keyboard@,
                advertisement(data.1@),
            ) {
                Some(action) => message_views(old(responses)@).push(action),
                None => message_views(old(responses)@),
            },
    {
        let (input, actions) = data;
        if let Some(message) = self.mapping.match_message(message, &input.keyboard, &actions) {
            responses.push_back(message);
            assert(message_views(responses@) =~= message_views(old(responses)@).push(message@));
        }
    }
}

impl Default for Mapping {
    /// The table of the editor's own bindings.
    fn default() -> (table: Mapping)
        ensures
            table.well_formed(),
            forall|trigger: InputMapperMessage|
                is_priority_order_of(
                    #[trigger] table.bindings(trigger),
                    default_binding_list().filter(has_trigger(trigger)),
                ),
    {
        let declared = default_bindings();
        Mapping::from_bindings(&declared)
    }
}

impl Default for InputMapper {
    /// The mapper that uses the editor's own bindings.
    fn default() -> (mapper: InputMapper)
        ensures
            forall|trigger: InputMapperMessage|
                is_priority_order_of(
                    #[trigger] mapper.bindings(trigger),
                    default_binding_list().filter(has_trigger(trigger)),
                ),
    {
        InputMapper { mapping: Mapping::default() }
    }
}

} // verus!
