use crate::message::LayerId;
use crate::style::PathStyle;
use vstd::prelude::*;
use vstd::string::*;

verus! {

/// An affine map of the plane in double precision. The library carries it
/// and never looks inside.
#[verifier::external_type_specification]
#[verifier::external_body]
pub struct ExDAffine2(glam::DAffine2);

/// A path made of lines and curves. The library carries it and never looks
/// inside.
#[verifier::external_type_specification]
#[verifier::external_body]
pub struct ExBezPath(kurbo::BezPath);

/// A copy of `path`, made by `kurbo::BezPath::clone`, which copies the
/// elements of the path one by one: the copy is the same path.
#[verifier::external_body]
fn clone_path(path: &kurbo::BezPath) -> (copy: kurbo::BezPath)
    ensures
        copy == *path,
{
    path.clone()
}

/// What goes wrong when a layer is not what the caller takes it for, or is
/// not there.
#[derive(Clone, Copy, Debug, PartialEq, Eq, Hash, Structural)]
pub enum DocumentError {
    LayerNotFound,
    InvalidPath,
    IndexOutOfBounds,
    NotAFolder,
    NonReorderableSelection,
    NotAShape,
    NotText,
}

/// How a layer is mixed with what lies under it.
#[derive(Clone, Copy, Debug, PartialEq, Eq, Hash, Structural)]
pub enum BlendMode {
    Normal,
    Multiply,
    Darken,
    ColorBurn,
    Screen,
    Lighten,
    ColorDodge,
    Overlay,
    SoftLight,
    HardLight,
    Difference,
    Exclusion,
    Hue,
    Saturation,
    Color,
    Luminosity,
}

impl BlendMode {
    /// The name by which a style sheet knows the blend mode.
    pub open spec fn spec_to_svg_style_name(self) -> Seq<char> {
        match self {
            BlendMode::Normal => "normal"@,
            BlendMode::Multiply => "multiply"@,
            BlendMode::Darken => "darken"@,
            BlendMode::ColorBurn => "color-burn"@,
            BlendMode::Screen => "screen"@,
            BlendMode::Lighten => "lighten"@,
            BlendMode::ColorDodge => "color-dodge"@,
            BlendMode::Overlay => "overlay"@,
            BlendMode::SoftLight => "soft-light"@,
            BlendMode::HardLight => "hard-light"@,
            BlendMode::Difference => "difference"@,
            BlendMode::Exclusion => "exclusion"@,
            BlendMode::Hue => "hue"@,
            BlendMode::Saturation => "saturation"@,
            BlendMode::Color => "color"@,
            BlendMode::Luminosity => "luminosity"@,
        }
    }

    /// The name by which a style sheet knows the blend mode.
    pub fn to_svg_style_name(self) -> (name: &'static str)
        ensures
            name@ == self.spec_to_svg_style_name(),
    {
        match self {
            BlendMode::Normal => "normal",
            BlendMode::Multiply => "multiply",
            BlendMode::Darken => "darken",
            BlendMode::ColorBurn => "color-burn",
            BlendMode::Screen => "screen",
            BlendMode::Lighten => "lighten",
            BlendMode::ColorDodge => "color-dodge",
            BlendMode::Overlay => "overlay",
            BlendMode::SoftLight => "soft-light",
            BlendMode::HardLight => "hard-light",
            BlendMode::Difference => "difference",
            BlendMode::Exclusion => "exclusion",
            BlendMode::Hue => "hue",
            BlendMode::Saturation => "saturation",
            BlendMode::Color => "color",
            BlendMode::Luminosity => "luminosity",
        }
    }
}

/// How much of a layer shows, as the bits of a double between zero and one.
/// The library carries the number and never computes with it.
#[derive(Clone, Copy, Debug, PartialEq, Eq, Hash, Structural)]
pub struct Opacity {
    pub bits: u64,
}

impl Opacity {
    /// The opacity of a layer that hides what lies under it: the bits of the
    /// double 1.
    pub open spec fn spec_full() -> Opacity {
        Opacity { bits: 0x3FF0_0000_0000_0000 }
    }

    /// The opacity of a layer that hides what lies under it.
    pub fn full() -> (opacity: Opacity)
        ensures
            opacity == Opacity::spec_full(),
    {
        Opacity { bits: 0x3FF0_0000_0000_0000 }
    }
}

/// A layer that holds other layers.
#[derive(Debug, PartialEq)]
pub struct Folder {
    pub next_assignment_id: LayerId,
    pub layer_ids: Vec<LayerId>,
    pub layers: Vec<Layer>,
}

/// A layer that holds one shape.
#[derive(Debug, PartialEq)]
pub struct Shape {
    pub path: kurbo::BezPath,
    pub style: PathStyle,
    pub render_index: i32,
    pub closed: bool,
}

/// A layer that holds a piece of text.
#[derive(Debug, PartialEq)]
pub struct Text {
    pub text: String,
    pub style: PathStyle,
}

/// What a layer holds.
#[derive(Debug, PartialEq)]
pub enum LayerDataType {
    Folder(Folder),
    Shape(Shape),
    Text(Text),
}

/// The value that a layer read from a file has for `cache_dirty`: nothing is
/// drawn yet, so the cache is stale.
pub fn return_true() -> (stale: bool)
    ensures
        stale,
{
    true
}

/// One layer of a document, with what it holds and how it is shown. `cache`
/// and `thumbnail_cache` hold what was drawn last; they are stale while
/// `cache_dirty` is set.
#[derive(Debug, PartialEq)]
pub struct Layer {
    pub visible: bool,
    pub name: Option<String>,
    pub data: LayerDataType,
    pub transform: glam::DAffine2,
    pub cache: String,
    pub thumbnail_cache: String,
    pub cache_dirty: bool,
    pub blend_mode: BlendMode,
    pub opacity: Opacity,
}

impl Folder {
    /// The layers of the folder, in their order.
    pub fn layers(&self) -> (layers: &Vec<Layer>)
        ensures
            *layers == self.layers,
    {
        &self.layers
    }
}

/// The layers that `layer` holds, in their order; none where it is no folder.
pub open spec fn children_of(layer: &Layer) -> Seq<&Layer> {
    match layer.data {
        LayerDataType::Folder(folder) => Seq::new(
            folder.layers@.len(),
            |index: int| &folder.layers@[index],
        ),
        _ => Seq::<&Layer>::empty(),
    }
}

impl Layer {
    /// A new layer that holds `data` and is placed by `transform`: visible,
    /// without a name, fully opaque and mixed normally, with nothing drawn yet.
    pub fn new(data: LayerDataType, transform: glam::DAffine2) -> (layer: Layer)
        ensures
            layer.visible,
            layer.name.is_none(),
            layer.data == data,
            layer.transform == transform,
            layer.cache@ == Seq::<char>::empty(),
            layer.thumbnail_cache@ == Seq::<char>::empty(),
            layer.cache_dirty,
            layer.blend_mode == BlendMode::Normal,
            layer.opacity == Opacity::spec_full(),
    {
        Layer {
            visible: true,
            name: None,
            data,
            transform,
            cache: String::new(),
            thumbnail_cache: String::new(),
            cache_dirty: true,
            blend_mode: BlendMode::Normal,
            opacity: Opacity::full(),
        }
    }

    /// The walk over this layer and all that it holds, this layer first.
    pub fn iter(&self) -> (walk: LayerIter<'_>)
        ensures
            walk.stack@ == seq![self],
    {
        let mut stack: Vec<&Layer> = Vec::new();
        stack.push(self);
        assert(stack@ =~= seq![self]);
        LayerIter { stack }
    }

    /// The folder that the layer holds; `NotAFolder` where it holds something
    /// else.
    pub fn as_folder(&self) -> (folder: Result<&Folder, DocumentError>)
        ensures
            match self.data {
                LayerDataType::Folder(held) => folder == Ok::<&Folder, DocumentError>(&held),
                _ => folder == Err::<&Folder, DocumentError>(DocumentError::NotAFolder),
            },
    {
        match &self.data {
            LayerDataType::Folder(f) => Ok(f),
            _ => Err(DocumentError::NotAFolder),
        }
    }

    /// The folder that the layer holds, to change it; `NotAFolder` where the
    /// layer holds something else. Nothing but the folder can change through
    /// what is handed out.
    pub fn as_folder_mut(&mut self) -> (folder: Result<&mut Folder, DocumentError>)
        ensures
            match old(self).data {
                LayerDataType::Folder(held) => folder matches Ok(inner) && *inner == held
                    && *final(self) == (Layer {
                    data: LayerDataType::Folder(*final(inner)),
                    ..*old(self)
                }),
                _ => folder matches Err(error) && error == DocumentError::NotAFolder && *final(self) == *old(self),
            },
    {
        match &mut self.data {
            LayerDataType::Folder(f) => Ok(f),
            _ => Err(DocumentError::NotAFolder),
        }
    }

    /// The text that the layer holds, to change it; `NotText` where the layer
    /// holds something else. Nothing but the text can change through what is
    /// handed out.
    pub fn as_text_mut(&mut self) -> (text: Result<&mut Text, DocumentError>)
        ensures
            match old(self).data {
                LayerDataType::Text(held) => text matches Ok(inner) && *inner == held
                    && *final(self) == (Layer {
                    data: LayerDataType::Text(*final(inner)),
                    ..*old(self)
                }),
                _ => text matches Err(error) && error == DocumentError::NotText && *final(self)
                    == *old(self),
            },
    {
        match &mut self.data {
            LayerDataType::Text(t) => Ok(t),
            _ => Err(DocumentError::NotText),
        }
    }

    /// The text that the layer holds; `NotText` where it holds something else.
    pub fn as_text(&self) -> (text: Result<&Text, DocumentError>)
        ensures
            match self.data {
                LayerDataType::Text(held) => text == Ok::<&Text, DocumentError>(&held),
                _ => text == Err::<&Text, DocumentError>(DocumentError::NotText),
            },
    {
        match &self.data {
            LayerDataType::Text(t) => Ok(t),
            _ => Err(DocumentError::NotText),
        }
    }
}

/// A walk over a layer and all that it holds. `stack` holds the layers that
/// are still to come; the last of them comes next.
#[derive(Debug)]
pub struct LayerIter<'a> {
    pub stack: Vec<&'a Layer>,
}

impl<'a> LayerIter<'a> {
    /// The next layer of the walk, and none at its end. The layer leaves the
    /// stack; where it is a folder, the layers that it holds take its place.
    pub fn next(&mut self) -> (layer: Option<&'a Layer>)
        ensures
            match layer {
                Some(top) => old(self).stack@.len() > 0 && top == old(self).stack@.last()
                    && final(self).stack@ == old(self).stack@.drop_last() + children_of(top),
                None => old(self).stack@.len() == 0 && final(self).stack@ == old(self).stack@,
            },
    {
        match self.stack.pop() {
            Some(layer) => {
                let ghost rest = self.stack@;
                if let LayerDataType::Folder(folder) = &layer.data {
                    let layers = folder.layers();
                    let mut index: usize = 0;
                    while index < layers.len()
                        invariant
                            index <= layers.len(),
                            *layers == folder.layers,
                            self.stack@ == rest + Seq::new(
                                index as nat,
                                |at: int| &folder.layers@[at],
                            ),
                        decreases layers.len() - index,
                    {
                        self.stack.push(&layers[index]);
                        index = index + 1;
                        assert(self.stack@ =~= rest + Seq::new(
                            index as nat,
                            |at: int| &folder.layers@[at],
                        ));
                    }
                    assert(self.stack@ =~= rest + children_of(layer));
                } else {
                    assert(self.stack@ =~= rest + children_of(layer));
                }
                Some(layer)
            },
            None => None,
        }
    }
}

impl Layer {
    /// Whether this layer is `source` with nothing drawn yet: it holds and
    /// shows the same, its caches are empty and stale, and the same holds of
    /// every layer that it holds, place by place.
    pub open spec fn is_fresh_copy_of(&self, source: &Layer) -> bool
        decreases source,
    {
        &&& self.visible == source.visible
        &&& match (self.name, source.name) {
            (Some(copied), Some(name)) => copied@ == name@,
            (None, None) => true,
            _ => false,
        }
        &&& self.transform == source.transform
        &&& self.cache@ == Seq::<char>::empty()
        &&& self.thumbnail_cache@ == Seq::<char>::empty()
        &&& self.cache_dirty
        &&& self.blend_mode == source.blend_mode
        &&& self.opacity == source.opacity
        &&& match (self.data, source.data) {
            (LayerDataType::Folder(copied), LayerDataType::Folder(held)) => {
                &&& copied.next_assignment_id == held.next_assignment_id
                &&& copied.layer_ids@ == held.layer_ids@
                &&& copied.layers@.len() == held.layers@.len()
                &&& forall|index: int|
                    0 <= index < held.layers@.len() ==> (#[trigger] copied.layers@[index]).is_fresh_copy_of(
                        &held.layers@[index],
                    )
            },
            (LayerDataType::Shape(copied), LayerDataType::Shape(held)) => {
                &&& copied.path == held.path
                &&& copied.style == held.style
                &&& copied.render_index == held.render_index
                &&& copied.closed == held.closed
            },
            (LayerDataType::Text(copied), LayerDataType::Text(held)) => {
                &&& copied.text@ == held.text@
                &&& copied.style == held.style
            },
            _ => false,
        }
    }
}

impl Clone for Layer {
    /// A copy of the layer with nothing drawn yet: what was drawn for the
    /// layer that is copied is not taken over, in this layer and in all that it
    /// holds.
    fn clone(&self) -> (copy: Layer)
        ensures
            copy.is_fresh_copy_of(self),
        decreases self,
    {
        let data = match &self.data {
            LayerDataType::Folder(folder) => {
                let mut layers: Vec<Layer> = Vec::new();
                let mut index: usize = 0;
                while index < folder.layers.len()
                    invariant
                        index <= folder.layers.len(),
                        layers@.len() == index,
                        self.data == LayerDataType::Folder(*folder),
                        forall|at: int|
                            0 <= at < index ==> (#[trigger] layers@[at]).is_fresh_copy_of(
                                &folder.layers@[at],
                            ),
                    decreases folder.layers.len() - index,
                {
                    let child = &folder.layers[index];
                    proof {
                        vstd::std_specs::vec::axiom_vec_index_decreases(
                            folder.layers,
                            index as int,
                        );
                        assert(self.data is Folder);
                        assert(self.data->Folder_0 == *folder);
                        assert(decreases_to!(self => self.data));
                        assert(decreases_to!(self.data => self.data->Folder_0));
                        assert(decreases_to!(self.data->Folder_0 => self.data->Folder_0.layers));
                        assert(decreases_to!(self => *child));
                    }
                    layers.push(child.clone());
                    index = index + 1;
                }
                let layer_ids = folder.layer_ids.clone();
                assert(layer_ids@ =~= folder.layer_ids@);
                LayerDataType::Folder(
                    Folder { next_assignment_id: folder.next_assignment_id, layer_ids, layers },
                )
            },
            LayerDataType::Shape(shape) => LayerDataType::Shape(
                Shape {
                    path: clone_path(&shape.path),
                    style: shape.style,
                    render_index: shape.render_index,
                    closed: shape.closed,
                },
            ),
            LayerDataType::Text(text) => LayerDataType::Text(
                Text { text: text.text.clone(), style: text.style },
            ),
        };
        let name = match &self.name {
            Some(name) => Some(name.clone()),
            None => None,
        };
        Layer {
            visible: self.visible,
            name,
            data,
            transform: self.transform,
            cache: String::new(),
            thumbnail_cache: String::new(),
            cache_dirty: true,
            blend_mode: self.blend_mode,
            opacity: self.opacity,
        }
    }
}

/// The first `count` of `parts`, with a comma between each two.
pub open spec fn comma_joined(parts: Seq<Seq<char>>, count: nat) -> Seq<char>
    decreases count,
{
    if count == 0 || count > parts.len() {
        Seq::<char>::empty()
    } else if count == 1 {
        parts[0]
    } else {
        comma_joined(parts, (count - 1) as nat) + ","@ + parts[count - 1]
    }
}

/// What is kept of a drawn layer: a group that holds what the layer's own
/// data has drawn, placed by the entries of its matrix and shown with its blend
/// mode and its opacity.
pub open spec fn rendered_group(
    matrix: Seq<Seq<char>>,
    blend_mode: BlendMode,
    opacity: Seq<char>,
    thumbnail: Seq<char>,
) -> Seq<char> {
    "<g transform=\"matrix(\n"@ + comma_joined(matrix, matrix.len()) + ")\" style=\"mix-blend-mode: "@
        + blend_mode.spec_to_svg_style_name() + "; opacity: "@ + opacity + "\">"@ + thumbnail
        + "</g>"@
}

/// The texts of `parts`.
pub open spec fn texts(parts: Seq<String>) -> Seq<Seq<char>> {
    parts.map_values(|part: String| part@)
}

impl Layer {
    /// Whether the layer has to be drawn again before it is shown: it is
    /// visible, and what was drawn last is stale.
    pub fn needs_render(&self) -> (stale: bool)
        ensures
            stale == (self.visible && self.cache_dirty),
    {
        self.visible && self.cache_dirty
    }

    /// Keeps what has been drawn of the layer. `thumbnail` is what the
    /// layer's own data has drawn; `matrix` and `opacity` are the entries of
    /// the layer's matrix and its opacity, written out as numbers. The cache
    /// is fresh afterwards.
    pub fn store_render(&mut self, thumbnail: String, matrix: &Vec<String>, opacity: &str)
        ensures
            final(self).thumbnail_cache == thumbnail,
            final(self).cache@ == rendered_group(
                texts(matrix@),
                old(self).blend_mode,
                opacity@,
                thumbnail@,
            ),
            !final(self).cache_dirty,
            final(self).visible == old(self).visible,
            final(self).name == old(self).name,
            final(self).data == old(self).data,
            final(self).transform == old(self).transform,
            final(self).blend_mode == old(self).blend_mode,
            final(self).opacity == old(self).opacity,
    {
        let mut cache = String::from_str("<g transform=\"matrix(\n");
        let ghost opening = cache@;
        let mut index: usize = 0;
        assert(cache@ =~= opening + comma_joined(texts(matrix@), 0));
        while index < matrix.len()
            invariant
                index <= matrix.len(),
                cache@ == opening + comma_joined(texts(matrix@), index as nat),
            decreases matrix.len() - index,
        {
            let ghost before = comma_joined(texts(matrix@), index as nat);
            if index > 0 {
                cache.append(",");
            }
            cache.append(matrix[index].as_str());
            assert(texts(matrix@)[index as int] == matrix@[index as int]@);
            assert(cache@ =~= opening + comma_joined(texts(matrix@), (index + 1) as nat));
            index = index + 1;
        }
        let ghost joined = cache@;
        cache.append(")\" style=\"mix-blend-mode: ");
        cache.append(self.blend_mode.to_svg_style_name());
        cache.append("; opacity: ");
        cache.append(opacity);
        cache.append("\">");
        cache.append(thumbnail.as_str());
        cache.append("</g>");
        assert(cache@ =~= rendered_group(
            texts(matrix@),
            self.blend_mode,
            opacity@,
            thumbnail@,
        ));
        self.thumbnail_cache = thumbnail;
        self.cache = cache;
        self.cache_dirty = false;
    }

    /// What is shown of the layer: what was drawn last, and nothing where the
    /// layer is hidden.
    pub fn rendered(&self) -> (shown: &str)
        ensures
            shown@ == if self.visible {
                self.cache@
            } else {
                Seq::<char>::empty()
            },
    {
        if !self.visible {
            let nothing = "";
            proof {
                reveal_strlit("");
            }
            assert(nothing@ =~= Seq::<char>::empty());
            return nothing;
        }
        self.cache.as_str()
    }

    /// The walk over the layers below this one that are no folders, where
    /// `start` is the matrix above this layer.
    pub fn transform_iter(&self, start: glam::DAffine2) -> (walk: TransformIter<'_>)
        ensures
            walk.stack@ == seq![(self, start, 0u32)],
    {
        let mut stack: Vec<(&Layer, glam::DAffine2, u32)> = Vec::new();
        stack.push((self, start, 0));
        assert(stack@ =~= seq![(self, start, 0u32)]);
        TransformIter { stack }
    }
}

/// The layers that `layer` holds, each with the matrix `transform` and the
/// depth `depth`; none where it is no folder.
pub open spec fn children_under(layer: &Layer, transform: glam::DAffine2, depth: u32) -> Seq<
    (&Layer, glam::DAffine2, u32),
> {
    match layer.data {
        LayerDataType::Folder(folder) => Seq::new(
            folder.layers@.len(),
            |index: int| (&folder.layers@[index], transform, depth),
        ),
        _ => Seq::<(&Layer, glam::DAffine2, u32)>::empty(),
    }
}

/// A walk over the layers that are no folders. `stack` holds the layers that
/// are still to come, each with the matrix above it and its depth; the last
/// of them comes next.
#[derive(Debug)]
pub struct TransformIter<'a> {
    pub stack: Vec<(&'a Layer, glam::DAffine2, u32)>,
}

impl<'a> TransformIter<'a> {
    /// The layer that comes next, with the matrix above it and its depth.
    pub fn top(&self) -> (next: Option<(&'a Layer, glam::DAffine2, u32)>)
        ensures
            match next {
                Some(entry) => self.stack@.len() > 0 && entry == self.stack@.last(),
                None => self.stack@.len() == 0,
            },
    {
        if self.stack.len() == 0 {
            None
        } else {
            Some(self.stack[self.stack.len() - 1])
        }
    }

    /// Takes the next layer off the stack. `new_transform` is the matrix of
    /// that layer under the matrix above it. A folder gives way to the
    /// layers that it holds, one level deeper, and nothing is handed out;
    /// any other layer is handed out with `new_transform` and its depth.
    pub fn step(&mut self, new_transform: glam::DAffine2) -> (found: Option<
        (&'a Layer, glam::DAffine2, u32),
    >)
        requires
            old(self).stack@.len() > 0 ==> old(self).stack@.last().2 < u32::MAX,
        ensures
            old(self).stack@.len() == 0 ==> found.is_none() && final(self).stack@ == old(self).stack@,
            old(self).stack@.len() > 0 ==> ({
                let (layer, _, depth) = old(self).stack@.last();
                if layer.data is Folder {
                    &&& found.is_none()
                    &&& final(self).stack@ == old(self).stack@.drop_last() + children_under(
                        layer,
                        new_transform,
                        (depth + 1) as u32,
                    )
                } else {
                    &&& found == Some((layer, new_transform, depth))
                    &&& final(self).stack@ == old(self).stack@.drop_last()
                }
            }),
    {
        match self.stack.pop() {
            Some((layer, _, depth)) => {
                let ghost rest = self.stack@;
                if let LayerDataType::Folder(folder) = &layer.data {
                    let layers = folder.layers();
                    let mut index: usize = 0;
                    assert(self.stack@ =~= rest + Seq::new(
                        0,
                        |at: int| (&folder.layers@[at], new_transform, (depth + 1) as u32),
                    ));
                    while index < layers.len()
                        invariant
                            index <= layers.len(),
                            depth < u32::MAX,
                            *layers == folder.layers,
                            self.stack@ == rest + Seq::new(
                                index as nat,
                                |at: int| (&folder.layers@[at], new_transform, (depth + 1) as u32),
                            ),
                        decreases layers.len() - index,
                    {
                        self.stack.push((&layers[index], new_transform, depth + 1));
                        index = index + 1;
                        assert(self.stack@ =~= rest + Seq::new(
                            index as nat,
                            |at: int| (&folder.layers@[at], new_transform, (depth + 1) as u32),
                        ));
                    }
                    assert(self.stack@ =~= rest + children_under(
                        layer,
                        new_transform,
                        (depth + 1) as u32,
                    ));
                    None
                } else {
                    Some((layer, new_transform, depth))
                }
            },
            None => None,
        }
    }
}

} // verus!
