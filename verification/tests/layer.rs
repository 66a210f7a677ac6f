use input_dispatch::layer_info::return_true;
use input_dispatch::layer_info::BlendMode;
use input_dispatch::layer_info::DocumentError;
use input_dispatch::layer_info::Folder;
use input_dispatch::layer_info::Layer;
use input_dispatch::layer_info::LayerDataType;
use input_dispatch::layer_info::Opacity;
use input_dispatch::layer_info::Shape;
use input_dispatch::layer_info::Text;
use input_dispatch::style::Color;
use input_dispatch::style::Fill;
use input_dispatch::style::PathStyle;

fn style() -> PathStyle {
    PathStyle { stroke: None, fill: Fill::Solid(Color { red: 1, green: 2, blue: 3, alpha: 4 }) }
}

fn transform(shift: f64) -> glam::DAffine2 {
    glam::DAffine2::from_cols_array(&[1., 0., 0., 1., shift, 0.])
}

fn triangle() -> kurbo::BezPath {
    let mut path = kurbo::BezPath::new();
    path.move_to((0., 0.));
    path.line_to((1., 0.));
    path.line_to((0., 1.));
    path.close_path();
    path
}

fn shape(render_index: i32) -> Layer {
    Layer::new(LayerDataType::Shape(Shape { path: triangle(), style: style(), render_index, closed: true }), transform(render_index as f64))
}

fn text(words: &str) -> Layer {
    Layer::new(LayerDataType::Text(Text { text: String::from(words), style: style() }), transform(0.))
}

fn folder(layers: Vec<Layer>) -> Layer {
    let layer_ids = (0..layers.len() as u64).collect();
    Layer::new(LayerDataType::Folder(Folder { next_assignment_id: layers.len() as u64, layer_ids, layers }), transform(0.))
}

#[test]
fn return_true_is_true() {
    assert!(return_true());
}

#[test]
fn new_layer_has_the_defaults() {
    let layer = shape(3);
    assert!(layer.visible);
    assert_eq!(layer.name, None);
    assert_eq!(layer.transform, transform(3.));
    assert_eq!(layer.cache, "");
    assert_eq!(layer.thumbnail_cache, "");
    assert!(layer.cache_dirty);
    assert_eq!(layer.blend_mode, BlendMode::Normal);
    assert_eq!(layer.opacity, Opacity::full());
    assert_eq!(f64::from_bits(layer.opacity.bits), 1.0);
    match &layer.data {
        LayerDataType::Shape(held) => assert_eq!(held.render_index, 3),
        other => panic!("not a shape: {:?}", other),
    }
}

#[test]
fn as_folder_gives_the_folder_or_the_error() {
    let mut tree = folder(vec![shape(1), text("a")]);
    assert_eq!(tree.as_folder().map(|held| held.layers().len()), Ok(2));
    assert_eq!(tree.as_text().err(), Some(DocumentError::NotText));
    tree.as_folder_mut().unwrap().layers.push(shape(2));
    assert_eq!(tree.as_folder().unwrap().layers.len(), 3);
    assert_eq!(tree.as_text_mut().err(), Some(DocumentError::NotText));

    let mut leaf = shape(1);
    assert_eq!(leaf.as_folder().err(), Some(DocumentError::NotAFolder));
    assert_eq!(leaf.as_folder_mut().err(), Some(DocumentError::NotAFolder));
    assert_eq!(leaf.as_text().err(), Some(DocumentError::NotText));
}

#[test]
fn as_text_gives_the_text_or_the_error() {
    let mut words = text("hello");
    assert_eq!(words.as_text().map(|held| held.text.clone()), Ok(String::from("hello")));
    assert_eq!(words.as_folder().err(), Some(DocumentError::NotAFolder));
    words.as_text_mut().unwrap().text.push_str(" there");
    assert_eq!(words.as_text().unwrap().text, "hello there");
    assert_eq!(words.as_folder_mut().err(), Some(DocumentError::NotAFolder));
    assert!(words.visible);
}

#[test]
fn walk_visits_every_layer_once_with_the_last_child_first() {
    let tree = folder(vec![shape(1), folder(vec![shape(2), text("x")]), shape(3)]);
    let mut walk = tree.iter();
    let mut seen = Vec::new();
    while let Some(layer) = walk.next() {
        seen.push(match &layer.data {
            LayerDataType::Folder(held) => format!("folder of {}", held.layers.len()),
            LayerDataType::Shape(held) => format!("shape {}", held.render_index),
            LayerDataType::Text(held) => format!("text {}", held.text),
        });
    }
    assert_eq!(seen, vec!["folder of 3", "shape 3", "folder of 2", "text x", "shape 2", "shape 1"]);
    assert!(walk.next().is_none());
    assert!(walk.stack.is_empty());
}

#[test]
fn walk_over_a_leaf_gives_the_leaf() {
    let leaf = shape(1);
    let mut walk = leaf.iter();
    assert_eq!(walk.stack.len(), 1);
    assert_eq!(walk.next(), Some(&leaf));
    assert_eq!(walk.next(), None);
}

#[test]
fn clone_keeps_the_layers_and_drops_what_was_drawn() {
    let mut inner = shape(2);
    inner.cache = String::from("<g/>");
    inner.cache_dirty = false;
    let mut tree = folder(vec![inner, text("t")]);
    tree.name = Some(String::from("group"));
    tree.visible = false;
    tree.cache = String::from("<svg/>");
    tree.thumbnail_cache = String::from("<thumb/>");
    tree.cache_dirty = false;
    tree.blend_mode = BlendMode::Multiply;
    tree.opacity = Opacity { bits: 0.5f64.to_bits() };

    let copy = tree.clone();
    assert!(!copy.visible);
    assert_eq!(copy.name, Some(String::from("group")));
    assert_eq!(copy.transform, tree.transform);
    assert_eq!(copy.cache, "");
    assert_eq!(copy.thumbnail_cache, "");
    assert!(copy.cache_dirty);
    assert_eq!(copy.blend_mode, BlendMode::Multiply);
    assert_eq!(copy.opacity, tree.opacity);
    let held = copy.as_folder().unwrap();
    assert_eq!(held.next_assignment_id, 2);
    assert_eq!(held.layer_ids, vec![0, 1]);
    assert_eq!(held.layers.len(), 2);
    assert_eq!(held.layers[0].cache, "");
    assert!(held.layers[0].cache_dirty);
    match &held.layers[0].data {
        LayerDataType::Shape(copied) => {
            assert_eq!(copied.path, triangle());
            assert_eq!(copied.style, style());
            assert_eq!(copied.render_index, 2);
            assert!(copied.closed);
        }
        other => panic!("not a shape: {:?}", other),
    }
    assert_eq!(held.layers[1].as_text().unwrap().text, "t");
    assert_eq!(tree.cache, "<svg/>");
}

#[test]
fn blend_modes_have_their_style_names() {
    assert_eq!(BlendMode::Normal.to_svg_style_name(), "normal");
    assert_eq!(BlendMode::ColorBurn.to_svg_style_name(), "color-burn");
    assert_eq!(BlendMode::SoftLight.to_svg_style_name(), "soft-light");
    assert_eq!(BlendMode::Luminosity.to_svg_style_name(), "luminosity");
}

#[test]
fn store_render_builds_the_group_and_clears_the_stale_mark() {
    let mut layer = shape(1);
    layer.blend_mode = BlendMode::Multiply;
    assert!(layer.needs_render());
    let matrix: Vec<String> = ["1", "0", "0", "1", "2.5", "-3"].iter().map(|entry| String::from(*entry)).collect();
    layer.store_render(String::from("<path/>"), &matrix, "0.5");
    assert_eq!(layer.thumbnail_cache, "<path/>");
    assert_eq!(
        layer.cache,
        "<g transform=\"matrix(\n1,0,0,1,2.5,-3)\" style=\"mix-blend-mode: multiply; opacity: 0.5\"><path/></g>"
    );
    assert!(!layer.cache_dirty);
    assert!(!layer.needs_render());
    assert_eq!(layer.rendered(), layer.cache);
    assert_eq!(layer.blend_mode, BlendMode::Multiply);
    assert!(layer.visible);
}

#[test]
fn store_render_joins_any_number_of_entries() {
    let mut layer = text("t");
    layer.store_render(String::new(), &Vec::new(), "1");
    assert_eq!(layer.cache, "<g transform=\"matrix(\n)\" style=\"mix-blend-mode: normal; opacity: 1\"></g>");
    layer.store_render(String::from("x"), &vec![String::from("7")], "1");
    assert_eq!(layer.cache, "<g transform=\"matrix(\n7)\" style=\"mix-blend-mode: normal; opacity: 1\">x</g>");
}

#[test]
fn hidden_layer_shows_nothing_and_needs_no_drawing() {
    let mut layer = shape(1);
    layer.cache = String::from("<g/>");
    layer.visible = false;
    assert!(!layer.needs_render());
    assert_eq!(layer.rendered(), "");
    layer.visible = true;
    assert!(layer.needs_render());
    assert_eq!(layer.rendered(), "<g/>");
}

#[test]
fn transform_walk_skips_folders_and_counts_the_depth() {
    let tree = folder(vec![shape(1), folder(vec![shape(2), text("x")]), shape(3)]);
    let mut walk = tree.transform_iter(transform(0.));
    let mut seen = Vec::new();
    while let Some((layer, above, depth)) = walk.top() {
        let product = above * layer.transform;
        if let Some((found, under, depth)) = walk.step(product) {
            let name = match &found.data {
                LayerDataType::Shape(held) => format!("shape {}", held.render_index),
                LayerDataType::Text(held) => format!("text {}", held.text),
                LayerDataType::Folder(_) => String::from("folder"),
            };
            assert_eq!(under, product);
            seen.push((name, depth, under.translation.x));
        } else {
            assert!(matches!(layer.data, LayerDataType::Folder(_)));
            assert!(depth < 2);
        }
    }
    assert_eq!(
        seen,
        vec![
            (String::from("shape 3"), 1, 3.),
            (String::from("text x"), 2, 0.),
            (String::from("shape 2"), 2, 2.),
            (String::from("shape 1"), 1, 1.),
        ]
    );
    assert_eq!(walk.top(), None);
    assert_eq!(walk.step(transform(0.)), None);
}

#[test]
fn transform_walk_over_a_leaf_hands_out_the_leaf() {
    let leaf = shape(4);
    let mut walk = leaf.transform_iter(transform(1.));
    assert_eq!(walk.top(), Some((&leaf, transform(1.), 0)));
    assert_eq!(walk.step(transform(9.)), Some((&leaf, transform(9.), 0)));
    assert!(walk.stack.is_empty());
}
