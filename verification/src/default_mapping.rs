use crate::input_mapper::InputMapperMessage;
use crate::input_mapper::MappingEntry;
use crate::input_mapper::MappingEntryView;
use crate::input_mapper::entry_views;
use crate::keyboard::Key;
use crate::keyboard::KeyStates;
use crate::message::DocumentMessage;
use crate::message::DocumentsMessage;
use crate::message::DocumentsMessageView;
use crate::message::EllipseMessage;
use crate::message::EyedropperMessage;
use crate::message::FillMessage;
use crate::message::FrontendMessage;
use crate::message::FrontendMessageView;
use crate::message::GlobalMessage;
use crate::message::LayerId;
use crate::message::LineMessage;
use crate::message::Message;
use crate::message::MessageView;
use crate::message::MovementMessage;
use crate::message::PenMessage;
use crate::message::SelectMessage;
use crate::message::ShapeMessage;
use crate::message::ToolMessage;
use crate::message::ToolType;
use crate::rectangle_tool::RectangleToolMessage;
use vstd::prelude::*;

verus! {

/// How far an arrow key moves the selection, in document units.
pub const NUDGE_AMOUNT: i32 = 1;

/// How far an arrow key moves the selection while shift is held.
pub const SHIFT_NUDGE_AMOUNT: i32 = 10;

/// The binding that gives `action` on `trigger` while `modifiers` are held.
pub open spec fn binding(
    trigger: InputMapperMessage,
    modifiers: Set<Key>,
    action: MessageView,
) -> MappingEntryView {
    MappingEntryView { trigger, modifiers, action }
}

/// The binding that gives `action` when `key` goes down while `modifiers` are
/// held.
pub open spec fn key_down(key: Key, modifiers: Set<Key>, action: MessageView) -> MappingEntryView {
    binding(InputMapperMessage::KeyDown(key), modifiers, action)
}

/// The binding that gives `action` when `key` comes up while `modifiers` are
/// held.
pub open spec fn key_up(key: Key, modifiers: Set<Key>, action: MessageView) -> MappingEntryView {
    binding(InputMapperMessage::KeyUp(key), modifiers, action)
}

/// The binding that gives `action` when the pointer moves while `modifiers`
/// are held.
pub open spec fn pointer_move(modifiers: Set<Key>, action: MessageView) -> MappingEntryView {
    binding(InputMapperMessage::PointerMove, modifiers, action)
}

/// The binding that gives `action` when the wheel turns while `modifiers` are
/// held.
pub open spec fn mouse_scroll(modifiers: Set<Key>, action: MessageView) -> MappingEntryView {
    binding(InputMapperMessage::MouseScroll, modifiers, action)
}

/// No modifier.
fn free() -> (modifiers: KeyStates)
    ensures
        modifiers@ == Set::<Key>::empty(),
{
    KeyStates::new()
}

/// The one modifier `key`.
fn with(key: Key) -> (modifiers: KeyStates)
    ensures
        modifiers@ == Set::<Key>::empty().insert(key),
{
    let mut modifiers = KeyStates::new();
    modifiers.set(key);
    modifiers
}

/// The two modifiers `first` and `second`.
fn with_both(first: Key, second: Key) -> (modifiers: KeyStates)
    ensures
        modifiers@ == Set::<Key>::empty().insert(first).insert(second),
{
    let mut modifiers = KeyStates::new();
    modifiers.set(first);
    modifiers.set(second);
    modifiers
}

/// Adds a binding behind those of `list`.
fn bind(
    list: &mut Vec<MappingEntry>,
    trigger: InputMapperMessage,
    modifiers: KeyStates,
    action: Message,
)
    ensures
        entry_views(final(list)@) == entry_views(old(list)@).push(
            binding(trigger, modifiers@, action@),
        ),
{
    list.push(MappingEntry { trigger, modifiers, action });
    assert(entry_views(list@) =~= entry_views(old(list)@).push(
        binding(trigger, modifiers@, action@),
    ));
}

fn on_key_down(list: &mut Vec<MappingEntry>, key: Key, modifiers: KeyStates, action: Message)
    ensures
        entry_views(final(list)@) == entry_views(old(list)@).push(
            key_down(key, modifiers@, action@),
        ),
{
    bind(list, InputMapperMessage::KeyDown(key), modifiers, action);
}

fn on_key_up(list: &mut Vec<MappingEntry>, key: Key, modifiers: KeyStates, action: Message)
    ensures
        entry_views(final(list)@) == entry_views(old(list)@).push(
            key_up(key, modifiers@, action@),
        ),
{
    bind(list, InputMapperMessage::KeyUp(key), modifiers, action);
}

fn on_pointer_move(list: &mut Vec<MappingEntry>, modifiers: KeyStates, action: Message)
    ensures
        entry_views(final(list)@) == entry_views(old(list)@).push(
            pointer_move(modifiers@, action@),
        ),
{
    bind(list, InputMapperMessage::PointerMove, modifiers, action);
}

fn on_mouse_scroll(list: &mut Vec<MappingEntry>, modifiers: KeyStates, action: Message)
    ensures
        entry_views(final(list)@) == entry_views(old(list)@).push(
            mouse_scroll(modifiers@, action@),
        ),
{
    bind(list, InputMapperMessage::MouseScroll, modifiers, action);
}

/// The bindings that stand before those of the tools: pasting, and snapping while shift is held.
pub open spec fn with_general_bindings(list: Seq<MappingEntryView>) -> Seq<MappingEntryView> {
    list
        .push(key_down(Key::KeyV, set![Key::KeyControl],
            MessageView::Documents(DocumentsMessageView::PasteLayers { path: Seq::<LayerId>::empty(), insert_index: -1isize })))
        .push(key_down(Key::KeyShift, set![],
            MessageView::Movement(MovementMessage::EnableSnapping)))
        .push(key_up(Key::KeyShift, set![],
            MessageView::Movement(MovementMessage::DisableSnapping)))
}

/// The bindings that stand before those of the tools: pasting, and snapping while shift is held.
fn bind_general(list: &mut Vec<MappingEntry>)
    ensures
        entry_views(final(list)@) == with_general_bindings(entry_views(old(list)@)),
{
    on_key_down(list, Key::KeyV, with(Key::KeyControl),
        Message::Documents(DocumentsMessage::PasteLayers { path: Vec::new(), insert_index: -1 }));
    on_key_down(list, Key::KeyShift, free(),
        Message::Movement(MovementMessage::EnableSnapping));
    on_key_up(list, Key::KeyShift, free(),
        Message::Movement(MovementMessage::DisableSnapping));
}

/// The bindings of the select tool.
pub open spec fn with_select_bindings(list: Seq<MappingEntryView>) -> Seq<MappingEntryView> {
    list
        .push(pointer_move(set![],
            MessageView::Tool(ToolMessage::Select(SelectMessage::MouseMove))))
        .push(key_down(Key::Lmb, set![],
            MessageView::Tool(ToolMessage::Select(SelectMessage::DragStart { add_to_selection: Key::KeyShift }))))
        .push(key_up(Key::Lmb, set![],
            MessageView::Tool(ToolMessage::Select(SelectMessage::DragStop))))
        .push(key_down(Key::Rmb, set![],
            MessageView::Tool(ToolMessage::Select(SelectMessage::Abort))))
        .push(key_down(Key::KeyEscape, set![],
            MessageView::Tool(ToolMessage::Select(SelectMessage::Abort))))
}

/// The bindings of the select tool.
fn bind_select(list: &mut Vec<MappingEntry>)
    ensures
        entry_views(final(list)@) == with_select_bindings(entry_views(old(list)@)),
{
    on_pointer_move(list, free(),
        Message::Tool(ToolMessage::Select(SelectMessage::MouseMove)));
    on_key_down(list, Key::Lmb, free(),
        Message::Tool(ToolMessage::Select(SelectMessage::DragStart { add_to_selection: Key::KeyShift })));
    on_key_up(list, Key::Lmb, free(),
        Message::Tool(ToolMessage::Select(SelectMessage::DragStop)));
    on_key_down(list, Key::Rmb, free(),
        Message::Tool(ToolMessage::Select(SelectMessage::Abort)));
    on_key_down(list, Key::KeyEscape, free(),
        Message::Tool(ToolMessage::Select(SelectMessage::Abort)));
}

/// The bindings of the eyedropper tool.
pub open spec fn with_eyedropper_bindings(list: Seq<MappingEntryView>) -> Seq<MappingEntryView> {
    list
        .push(key_down(Key::Lmb, set![],
            MessageView::Tool(ToolMessage::Eyedropper(EyedropperMessage::LeftMouseDown))))
        .push(key_down(Key::Rmb, set![],
            MessageView::Tool(ToolMessage::Eyedropper(EyedropperMessage::RightMouseDown))))
}

/// The bindings of the eyedropper tool.
fn bind_eyedropper(list: &mut Vec<MappingEntry>)
    ensures
        entry_views(final(list)@) == with_eyedropper_bindings(entry_views(old(list)@)),
{
    on_key_down(list, Key::Lmb, free(),
        Message::Tool(ToolMessage::Eyedropper(EyedropperMessage::LeftMouseDown)));
    on_key_down(list, Key::Rmb, free(),
        Message::Tool(ToolMessage::Eyedropper(EyedropperMessage::RightMouseDown)));
}

/// The bindings of the rectangle tool.
pub open spec fn with_rectangle_bindings(list: Seq<MappingEntryView>) -> Seq<MappingEntryView> {
    list
        .push(key_down(Key::Lmb, set![],
            MessageView::Tool(ToolMessage::Rectangle(RectangleToolMessage::DragStart))))
        .push(key_up(Key::Lmb, set![],
            MessageView::Tool(ToolMessage::Rectangle(RectangleToolMessage::DragStop))))
        .push(key_down(Key::Rmb, set![],
            MessageView::Tool(ToolMessage::Rectangle(RectangleToolMessage::Abort))))
        .push(key_down(Key::KeyEscape, set![],
            MessageView::Tool(ToolMessage::Rectangle(RectangleToolMessage::Abort))))
        .push(pointer_move(set![],
            MessageView::Tool(ToolMessage::Rectangle(RectangleToolMessage::Resize { center: Key::KeyAlt, lock_ratio: Key::KeyShift }))))
        .push(key_down(Key::KeyAlt, set![],
            MessageView::Tool(ToolMessage::Rectangle(RectangleToolMessage::Resize { center: Key::KeyAlt, lock_ratio: Key::KeyShift }))))
        .push(key_up(Key::KeyAlt, set![],
            MessageView::Tool(ToolMessage::Rectangle(RectangleToolMessage::Resize { center: Key::KeyAlt, lock_ratio: Key::KeyShift }))))
        .push(key_down(Key::KeyShift, set![],
            MessageView::Tool(ToolMessage::Rectangle(RectangleToolMessage::Resize { center: Key::KeyAlt, lock_ratio: Key::KeyShift }))))
        .push(key_up(Key::KeyShift, set![],
            MessageView::Tool(ToolMessage::Rectangle(RectangleToolMessage::Resize { center: Key::KeyAlt, lock_ratio: Key::KeyShift }))))
}

/// The bindings of the rectangle tool.
fn bind_rectangle(list: &mut Vec<MappingEntry>)
    ensures
        entry_views(final(list)@) == with_rectangle_bindings(entry_views(old(list)@)),
{
    on_key_down(list, Key::Lmb, free(),
        Message::Tool(ToolMessage::Rectangle(RectangleToolMessage::DragStart)));
    on_key_up(list, Key::Lmb, free(),
        Message::Tool(ToolMessage::Rectangle(RectangleToolMessage::DragStop)));
    on_key_down(list, Key::Rmb, free(),
        Message::Tool(ToolMessage::Rectangle(RectangleToolMessage::Abort)));
    on_key_down(list, Key::KeyEscape, free(),
        Message::Tool(ToolMessage::Rectangle(RectangleToolMessage::Abort)));
    on_pointer_move(list, free(),
        Message::Tool(ToolMessage::Rectangle(RectangleToolMessage::Resize { center: Key::KeyAlt, lock_ratio: Key::KeyShift })));
    on_key_down(list, Key::KeyAlt, free(),
        Message::Tool(ToolMessage::Rectangle(RectangleToolMessage::Resize { center: Key::KeyAlt, lock_ratio: Key::KeyShift })));
    on_key_up(list, Key::KeyAlt, free(),
        Message::Tool(ToolMessage::Rectangle(RectangleToolMessage::Resize { center: Key::KeyAlt, lock_ratio: Key::KeyShift })));
    on_key_down(list, Key::KeyShift, free(),
        Message::Tool(ToolMessage::Rectangle(RectangleToolMessage::Resize { center: Key::KeyAlt, lock_ratio: Key::KeyShift })));
    on_key_up(list, Key::KeyShift, free(),
        Message::Tool(ToolMessage::Rectangle(RectangleToolMessage::Resize { center: Key::KeyAlt, lock_ratio: Key::KeyShift })));
}

/// The bindings of the ellipse tool.
pub open spec fn with_ellipse_bindings(list: Seq<MappingEntryView>) -> Seq<MappingEntryView> {
    list
        .push(key_down(Key::Lmb, set![],
            MessageView::Tool(ToolMessage::Ellipse(EllipseMessage::DragStart))))
        .push(key_up(Key::Lmb, set![],
            MessageView::Tool(ToolMessage::Ellipse(EllipseMessage::DragStop))))
        .push(key_down(Key::Rmb, set![],
            MessageView::Tool(ToolMessage::Ellipse(EllipseMessage::Abort))))
        .push(key_down(Key::KeyEscape, set![],
            MessageView::Tool(ToolMessage::Ellipse(EllipseMessage::Abort))))
        .push(pointer_move(set![],
            MessageView::Tool(ToolMessage::Ellipse(EllipseMessage::Resize { center: Key::KeyAlt, lock_ratio: Key::KeyShift }))))
        .push(key_down(Key::KeyAlt, set![],
            MessageView::Tool(ToolMessage::Ellipse(EllipseMessage::Resize { center: Key::KeyAlt, lock_ratio: Key::KeyShift }))))
        .push(key_up(Key::KeyAlt, set![],
            MessageView::Tool(ToolMessage::Ellipse(EllipseMessage::Resize { center: Key::KeyAlt, lock_ratio: Key::KeyShift }))))
        .push(key_down(Key::KeyShift, set![],
            MessageView::Tool(ToolMessage::Ellipse(EllipseMessage::Resize { center: Key::KeyAlt, lock_ratio: Key::KeyShift }))))
        .push(key_up(Key::KeyShift, set![],
            MessageView::Tool(ToolMessage::Ellipse(EllipseMessage::Resize { center: Key::KeyAlt, lock_ratio: Key::KeyShift }))))
}

/// The bindings of the ellipse tool.
fn bind_ellipse(list: &mut Vec<MappingEntry>)
    ensures
        entry_views(final(list)@) == with_ellipse_bindings(entry_views(old(list)@)),
{
    on_key_down(list, Key::Lmb, free(),
        Message::Tool(ToolMessage::Ellipse(EllipseMessage::DragStart)));
    on_key_up(list, Key::Lmb, free(),
        Message::Tool(ToolMessage::Ellipse(EllipseMessage::DragStop)));
    on_key_down(list, Key::Rmb, free(),
        Message::Tool(ToolMessage::Ellipse(EllipseMessage::Abort)));
    on_key_down(list, Key::KeyEscape, free(),
        Message::Tool(ToolMessage::Ellipse(EllipseMessage::Abort)));
    on_pointer_move(list, free(),
        Message::Tool(ToolMessage::Ellipse(EllipseMessage::Resize { center: Key::KeyAlt, lock_ratio: Key::KeyShift })));
    on_key_down(list, Key::KeyAlt, free(),
        Message::Tool(ToolMessage::Ellipse(EllipseMessage::Resize { center: Key::KeyAlt, lock_ratio: Key::KeyShift })));
    on_key_up(list, Key::KeyAlt, free(),
        Message::Tool(ToolMessage::Ellipse(EllipseMessage::Resize { center: Key::KeyAlt, lock_ratio: Key::KeyShift })));
    on_key_down(list, Key::KeyShift, free(),
        Message::Tool(ToolMessage::Ellipse(EllipseMessage::Resize { center: Key::KeyAlt, lock_ratio: Key::KeyShift })));
    on_key_up(list, Key::KeyShift, free(),
        Message::Tool(ToolMessage::Ellipse(EllipseMessage::Resize { center: Key::KeyAlt, lock_ratio: Key::KeyShift })));
}

/// The bindings of the shape tool.
pub open spec fn with_shape_bindings(list: Seq<MappingEntryView>) -> Seq<MappingEntryView> {
    list
        .push(key_down(Key::Lmb, set![],
            MessageView::Tool(ToolMessage::Shape(ShapeMessage::DragStart))))
        .push(key_up(Key::Lmb, set![],
            MessageView::Tool(ToolMessage::Shape(ShapeMessage::DragStop))))
        .push(key_down(Key::Rmb, set![],
            MessageView::Tool(ToolMessage::Shape(ShapeMessage::Abort))))
        .push(key_down(Key::KeyEscape, set![],
            MessageView::Tool(ToolMessage::Shape(ShapeMessage::Abort))))
        .push(pointer_move(set![],
            MessageView::Tool(ToolMessage::Shape(ShapeMessage::Resize { center: Key::KeyAlt, lock_ratio: Key::KeyShift }))))
        .push(key_down(Key::KeyAlt, set![],
            MessageView::Tool(ToolMessage::Shape(ShapeMessage::Resize { center: Key::KeyAlt, lock_ratio: Key::KeyShift }))))
        .push(key_up(Key::KeyAlt, set![],
            MessageView::Tool(ToolMessage::Shape(ShapeMessage::Resize { center: Key::KeyAlt, lock_ratio: Key::KeyShift }))))
        .push(key_down(Key::KeyShift, set![],
            MessageView::Tool(ToolMessage::Shape(ShapeMessage::Resize { center: Key::KeyAlt, lock_ratio: Key::KeyShift }))))
        .push(key_up(Key::KeyShift, set![],
            MessageView::Tool(ToolMessage::Shape(ShapeMessage::Resize { center: Key::KeyAlt, lock_ratio: Key::KeyShift }))))
}

/// The bindings of the shape tool.
fn bind_shape(list: &mut Vec<MappingEntry>)
    ensures
        entry_views(final(list)@) == with_shape_bindings(entry_views(old(list)@)),
{
    on_key_down(list, Key::Lmb, free(),
        Message::Tool(ToolMessage::Shape(ShapeMessage::DragStart)));
    on_key_up(list, Key::Lmb, free(),
        Message::Tool(ToolMessage::Shape(ShapeMessage::DragStop)));
    on_key_down(list, Key::Rmb, free(),
        Message::Tool(ToolMessage::Shape(ShapeMessage::Abort)));
    on_key_down(list, Key::KeyEscape, free(),
        Message::Tool(ToolMessage::Shape(ShapeMessage::Abort)));
    on_pointer_move(list, free(),
        Message::Tool(ToolMessage::Shape(ShapeMessage::Resize { center: Key::KeyAlt, lock_ratio: Key::KeyShift })));
    on_key_down(list, Key::KeyAlt, free(),
        Message::Tool(ToolMessage::Shape(ShapeMessage::Resize { center: Key::KeyAlt, lock_ratio: Key::KeyShift })));
    on_key_up(list, Key::KeyAlt, free(),
        Message::Tool(ToolMessage::Shape(ShapeMessage::Resize { center: Key::KeyAlt, lock_ratio: Key::KeyShift })));
    on_key_down(list, Key::KeyShift, free(),
        Message::Tool(ToolMessage::Shape(ShapeMessage::Resize { center: Key::KeyAlt, lock_ratio: Key::KeyShift })));
    on_key_up(list, Key::KeyShift, free(),
        Message::Tool(ToolMessage::Shape(ShapeMessage::Resize { center: Key::KeyAlt, lock_ratio: Key::KeyShift })));
}

/// The bindings of the line tool.
pub open spec fn with_line_bindings(list: Seq<MappingEntryView>) -> Seq<MappingEntryView> {
    list
        .push(key_down(Key::Lmb, set![],
            MessageView::Tool(ToolMessage::Line(LineMessage::DragStart))))
        .push(key_up(Key::Lmb, set![],
            MessageView::Tool(ToolMessage::Line(LineMessage::DragStop))))
        .push(key_down(Key::Rmb, set![],
            MessageView::Tool(ToolMessage::Line(LineMessage::Abort))))
        .push(key_down(Key::KeyEscape, set![],
            MessageView::Tool(ToolMessage::Line(LineMessage::Abort))))
        .push(pointer_move(set![],
            MessageView::Tool(ToolMessage::Line(LineMessage::Redraw { center: Key::KeyAlt, lock_angle: Key::KeyControl, snap_angle: Key::KeyShift }))))
        .push(key_down(Key::KeyAlt, set![],
            MessageView::Tool(ToolMessage::Line(LineMessage::Redraw { center: Key::KeyAlt, lock_angle: Key::KeyControl, snap_angle: Key::KeyShift }))))
        .push(key_up(Key::KeyAlt, set![],
            MessageView::Tool(ToolMessage::Line(LineMessage::Redraw { center: Key::KeyAlt, lock_angle: Key::KeyControl, snap_angle: Key::KeyShift }))))
        .push(key_down(Key::KeyShift, set![],
            MessageView::Tool(ToolMessage::Line(LineMessage::Redraw { center: Key::KeyAlt, lock_angle: Key::KeyControl, snap_angle: Key::KeyShift }))))
        .push(key_up(Key::KeyShift, set![],
            MessageView::Tool(ToolMessage::Line(LineMessage::Redraw { center: Key::KeyAlt, lock_angle: Key::KeyControl, snap_angle: Key::KeyShift }))))
        .push(key_down(Key::KeyControl, set![],
            MessageView::Tool(ToolMessage::Line(LineMessage::Redraw { center: Key::KeyAlt, lock_angle: Key::KeyControl, snap_angle: Key::KeyShift }))))
        .push(key_up(Key::KeyControl, set![],
            MessageView::Tool(ToolMessage::Line(LineMessage::Redraw { center: Key::KeyAlt, lock_angle: Key::KeyControl, snap_angle: Key::KeyShift }))))
}

/// The bindings of the line tool.
fn bind_line(list: &mut Vec<MappingEntry>)
    ensures
        entry_views(final(list)@) == with_line_bindings(entry_views(old(list)@)),
{
    on_key_down(list, Key::Lmb, free(),
        Message::Tool(ToolMessage::Line(LineMessage::DragStart)));
    on_key_up(list, Key::Lmb, free(),
        Message::Tool(ToolMessage::Line(LineMessage::DragStop)));
    on_key_down(list, Key::Rmb, free(),
        Message::Tool(ToolMessage::Line(LineMessage::Abort)));
    on_key_down(list, Key::KeyEscape, free(),
        Message::Tool(ToolMessage::Line(LineMessage::Abort)));
    on_pointer_move(list, free(),
        Message::Tool(ToolMessage::Line(LineMessage::Redraw { center: Key::KeyAlt, lock_angle: Key::KeyControl, snap_angle: Key::KeyShift })));
    on_key_down(list, Key::KeyAlt, free(),
        Message::Tool(ToolMessage::Line(LineMessage::Redraw { center: Key::KeyAlt, lock_angle: Key::KeyControl, snap_angle: Key::KeyShift })));
    on_key_up(list, Key::KeyAlt, free(),
        Message::Tool(ToolMessage::Line(LineMessage::Redraw { center: Key::KeyAlt, lock_angle: Key::KeyControl, snap_angle: Key::KeyShift })));
    on_key_down(list, Key::KeyShift, free(),
        Message::Tool(ToolMessage::Line(LineMessage::Redraw { center: Key::KeyAlt, lock_angle: Key::KeyControl, snap_angle: Key::KeyShift })));
    on_key_up(list, Key::KeyShift, free(),
        Message::Tool(ToolMessage::Line(LineMessage::Redraw { center: Key::KeyAlt, lock_angle: Key::KeyControl, snap_angle: Key::KeyShift })));
    on_key_down(list, Key::KeyControl, free(),
        Message::Tool(ToolMessage::Line(LineMessage::Redraw { center: Key::KeyAlt, lock_angle: Key::KeyControl, snap_angle: Key::KeyShift })));
    on_key_up(list, Key::KeyControl, free(),
        Message::Tool(ToolMessage::Line(LineMessage::Redraw { center: Key::KeyAlt, lock_angle: Key::KeyControl, snap_angle: Key::KeyShift })));
}

/// The bindings of the pen tool.
pub open spec fn with_pen_bindings(list: Seq<MappingEntryView>) -> Seq<MappingEntryView> {
    list
        .push(pointer_move(set![],
            MessageView::Tool(ToolMessage::Pen(PenMessage::PointerMove))))
        .push(key_down(Key::Lmb, set![],
            MessageView::Tool(ToolMessage::Pen(PenMessage::DragStart))))
        .push(key_up(Key::Lmb, set![],
            MessageView::Tool(ToolMessage::Pen(PenMessage::DragStop))))
        .push(key_down(Key::Rmb, set![],
            MessageView::Tool(ToolMessage::Pen(PenMessage::Confirm))))
        .push(key_down(Key::KeyEscape, set![],
            MessageView::Tool(ToolMessage::Pen(PenMessage::Confirm))))
        .push(key_down(Key::KeyEnter, set![],
            MessageView::Tool(ToolMessage::Pen(PenMessage::Confirm))))
}

/// The bindings of the pen tool.
fn bind_pen(list: &mut Vec<MappingEntry>)
    ensures
        entry_views(final(list)@) == with_pen_bindings(entry_views(old(list)@)),
{
    on_pointer_move(list, free(),
        Message::Tool(ToolMessage::Pen(PenMessage::PointerMove)));
    on_key_down(list, Key::Lmb, free(),
        Message::Tool(ToolMessage::Pen(PenMessage::DragStart)));
    on_key_up(list, Key::Lmb, free(),
        Message::Tool(ToolMessage::Pen(PenMessage::DragStop)));
    on_key_down(list, Key::Rmb, free(),
        Message::Tool(ToolMessage::Pen(PenMessage::Confirm)));
    on_key_down(list, Key::KeyEscape, free(),
        Message::Tool(ToolMessage::Pen(PenMessage::Confirm)));
    on_key_down(list, Key::KeyEnter, free(),
        Message::Tool(ToolMessage::Pen(PenMessage::Confirm)));
}

/// The bindings of the fill tool.
pub open spec fn with_fill_bindings(list: Seq<MappingEntryView>) -> Seq<MappingEntryView> {
    list
        .push(key_down(Key::Lmb, set![],
            MessageView::Tool(ToolMessage::Fill(FillMessage::MouseDown))))
}

/// The bindings of the fill tool.
fn bind_fill(list: &mut Vec<MappingEntry>)
    ensures
        entry_views(final(list)@) == with_fill_bindings(entry_views(old(list)@)),
{
    on_key_down(list, Key::Lmb, free(),
        Message::Tool(ToolMessage::Fill(FillMessage::MouseDown)));
}

/// The bindings that choose a tool or change the colours.
pub open spec fn with_tool_choice_bindings(list: Seq<MappingEntryView>) -> Seq<MappingEntryView> {
    list
        .push(key_down(Key::KeyF, set![],
            MessageView::Tool(ToolMessage::SelectTool(ToolType::Fill))))
        .push(key_down(Key::KeyM, set![],
            MessageView::Tool(ToolMessage::SelectTool(ToolType::Rectangle))))
        .push(key_down(Key::KeyE, set![],
            MessageView::Tool(ToolMessage::SelectTool(ToolType::Ellipse))))
        .push(key_down(Key::KeyV, set![],
            MessageView::Tool(ToolMessage::SelectTool(ToolType::Select))))
        .push(key_down(Key::KeyL, set![],
            MessageView::Tool(ToolMessage::SelectTool(ToolType::Line))))
        .push(key_down(Key::KeyP, set![],
            MessageView::Tool(ToolMessage::SelectTool(ToolType::Pen))))
        .push(key_down(Key::KeyY, set![],
            MessageView::Tool(ToolMessage::SelectTool(ToolType::Shape))))
        .push(key_down(Key::KeyI, set![],
            MessageView::Tool(ToolMessage::SelectTool(ToolType::Eyedropper))))
        .push(key_down(Key::KeyX, set![Key::KeyShift, Key::KeyControl],
            MessageView::Tool(ToolMessage::ResetColors)))
        .push(key_down(Key::KeyX, set![Key::KeyShift],
            MessageView::Tool(ToolMessage::SwapColors)))
}

/// The bindings that choose a tool or change the colours.
fn bind_tool_choice(list: &mut Vec<MappingEntry>)
    ensures
        entry_views(final(list)@) == with_tool_choice_bindings(entry_views(old(list)@)),
{
    on_key_down(list, Key::KeyF, free(),
        Message::Tool(ToolMessage::SelectTool(ToolType::Fill)));
    on_key_down(list, Key::KeyM, free(),
        Message::Tool(ToolMessage::SelectTool(ToolType::Rectangle)));
    on_key_down(list, Key::KeyE, free(),
        Message::Tool(ToolMessage::SelectTool(ToolType::Ellipse)));
    on_key_down(list, Key::KeyV, free(),
        Message::Tool(ToolMessage::SelectTool(ToolType::Select)));
    on_key_down(list, Key::KeyL, free(),
        Message::Tool(ToolMessage::SelectTool(ToolType::Line)));
    on_key_down(list, Key::KeyP, free(),
        Message::Tool(ToolMessage::SelectTool(ToolType::Pen)));
    on_key_down(list, Key::KeyY, free(),
        Message::Tool(ToolMessage::SelectTool(ToolType::Shape)));
    on_key_down(list, Key::KeyI, free(),
        Message::Tool(ToolMessage::SelectTool(ToolType::Eyedropper)));
    on_key_down(list, Key::KeyX, with_both(Key::KeyShift, Key::KeyControl),
        Message::Tool(ToolMessage::ResetColors));
    on_key_down(list, Key::KeyX, with(Key::KeyShift),
        Message::Tool(ToolMessage::SwapColors));
}

/// The bindings that open, change and save the document.
pub open spec fn with_document_bindings(list: Seq<MappingEntryView>) -> Seq<MappingEntryView> {
    list
        .push(key_down(Key::KeyO, set![Key::KeyControl],
            MessageView::Frontend(FrontendMessageView::OpenDocumentBrowse)))
        .push(key_down(Key::KeyZ, set![Key::KeyControl],
            MessageView::Document(DocumentMessage::Undo)))
        .push(key_down(Key::KeyA, set![Key::KeyControl, Key::KeyAlt],
            MessageView::Document(DocumentMessage::DeselectAllLayers)))
        .push(key_down(Key::KeyA, set![Key::KeyControl],
            MessageView::Document(DocumentMessage::SelectAllLayers)))
        .push(key_down(Key::KeyDelete, set![],
            MessageView::Document(DocumentMessage::DeleteSelectedLayers)))
        .push(key_down(Key::KeyX, set![],
            MessageView::Document(DocumentMessage::DeleteSelectedLayers)))
        .push(key_down(Key::KeyBackspace, set![],
            MessageView::Document(DocumentMessage::DeleteSelectedLayers)))
        .push(key_down(Key::KeyE, set![Key::KeyControl],
            MessageView::Document(DocumentMessage::ExportDocument)))
        .push(key_down(Key::KeyS, set![Key::KeyControl],
            MessageView::Document(DocumentMessage::SaveDocument)))
        .push(key_down(Key::KeyS, set![Key::KeyControl, Key::KeyShift],
            MessageView::Document(DocumentMessage::SaveDocument)))
}

/// The bindings that open, change and save the document.
fn bind_document(list: &mut Vec<MappingEntry>)
    ensures
        entry_views(final(list)@) == with_document_bindings(entry_views(old(list)@)),
{
    on_key_down(list, Key::KeyO, with(Key::KeyControl),
        Message::Frontend(FrontendMessage::OpenDocumentBrowse));
    on_key_down(list, Key::KeyZ, with(Key::KeyControl),
        Message::Document(DocumentMessage::Undo));
    on_key_down(list, Key::KeyA, with_both(Key::KeyControl, Key::KeyAlt),
        Message::Document(DocumentMessage::DeselectAllLayers));
    on_key_down(list, Key::KeyA, with(Key::KeyControl),
        Message::Document(DocumentMessage::SelectAllLayers));
    on_key_down(list, Key::KeyDelete, free(),
        Message::Document(DocumentMessage::DeleteSelectedLayers));
    on_key_down(list, Key::KeyX, free(),
        Message::Document(DocumentMessage::DeleteSelectedLayers));
    on_key_down(list, Key::KeyBackspace, free(),
        Message::Document(DocumentMessage::DeleteSelectedLayers));
    on_key_down(list, Key::KeyE, with(Key::KeyControl),
        Message::Document(DocumentMessage::ExportDocument));
    on_key_down(list, Key::KeyS, with(Key::KeyControl),
        Message::Document(DocumentMessage::SaveDocument));
    on_key_down(list, Key::KeyS, with_both(Key::KeyControl, Key::KeyShift),
        Message::Document(DocumentMessage::SaveDocument));
}

/// The bindings that move, turn and zoom the canvas.
pub open spec fn with_movement_bindings(list: Seq<MappingEntryView>) -> Seq<MappingEntryView> {
    list
        .push(pointer_move(set![],
            MessageView::Movement(MovementMessage::MouseMove)))
        .push(key_down(Key::Mmb, set![Key::KeyControl],
            MessageView::Movement(MovementMessage::RotateCanvasBegin { snap: false })))
        .push(key_down(Key::Mmb, set![Key::KeyControl, Key::KeyShift],
            MessageView::Movement(MovementMessage::RotateCanvasBegin { snap: true })))
        .push(key_down(Key::Mmb, set![Key::KeyShift],
            MessageView::Movement(MovementMessage::ZoomCanvasBegin)))
        .push(key_down(Key::Key0, set![Key::KeyControl],
            MessageView::Movement(MovementMessage::ZoomCanvasToFitAll)))
        .push(key_down(Key::Mmb, set![],
            MessageView::Movement(MovementMessage::TranslateCanvasBegin)))
        .push(key_up(Key::Mmb, set![],
            MessageView::Movement(MovementMessage::TranslateCanvasEnd)))
        .push(key_down(Key::KeyPlus, set![Key::KeyControl],
            MessageView::Movement(MovementMessage::IncreaseCanvasZoom)))
        .push(key_down(Key::KeyEquals, set![Key::KeyControl],
            MessageView::Movement(MovementMessage::IncreaseCanvasZoom)))
        .push(key_down(Key::KeyMinus, set![Key::KeyControl],
            MessageView::Movement(MovementMessage::DecreaseCanvasZoom)))
        .push(key_down(Key::Key1, set![Key::KeyControl],
            MessageView::Movement(MovementMessage::SetCanvasZoom(100))))
        .push(key_down(Key::Key2, set![Key::KeyControl],
            MessageView::Movement(MovementMessage::SetCanvasZoom(200))))
        .push(mouse_scroll(set![Key::KeyControl],
            MessageView::Movement(MovementMessage::WheelCanvasZoom)))
        .push(mouse_scroll(set![Key::KeyShift],
            MessageView::Movement(MovementMessage::WheelCanvasTranslate { use_y_as_x: true })))
        .push(mouse_scroll(set![],
            MessageView::Movement(MovementMessage::WheelCanvasTranslate { use_y_as_x: false })))
        .push(key_down(Key::KeyPageUp, set![Key::KeyShift],
            MessageView::Movement(MovementMessage::TranslateCanvasByViewportFraction(1, 0))))
        .push(key_down(Key::KeyPageDown, set![Key::KeyShift],
            MessageView::Movement(MovementMessage::TranslateCanvasByViewportFraction(-1i32, 0))))
        .push(key_down(Key::KeyPageUp, set![],
            MessageView::Movement(MovementMessage::TranslateCanvasByViewportFraction(0, 1))))
        .push(key_down(Key::KeyPageDown, set![],
            MessageView::Movement(MovementMessage::TranslateCanvasByViewportFraction(0, -1i32))))
}

/// The bindings that move, turn and zoom the canvas.
fn bind_movement(list: &mut Vec<MappingEntry>)
    ensures
        entry_views(final(list)@) == with_movement_bindings(entry_views(old(list)@)),
{
    on_pointer_move(list, free(),
        Message::Movement(MovementMessage::MouseMove));
    on_key_down(list, Key::Mmb, with(Key::KeyControl),
        Message::Movement(MovementMessage::RotateCanvasBegin { snap: false }));
    on_key_down(list, Key::Mmb, with_both(Key::KeyControl, Key::KeyShift),
        Message::Movement(MovementMessage::RotateCanvasBegin { snap: true }));
    on_key_down(list, Key::Mmb, with(Key::KeyShift),
        Message::Movement(MovementMessage::ZoomCanvasBegin));
    on_key_down(list, Key::Key0, with(Key::KeyControl),
        Message::Movement(MovementMessage::ZoomCanvasToFitAll));
    on_key_down(list, Key::Mmb, free(),
        Message::Movement(MovementMessage::TranslateCanvasBegin));
    on_key_up(list, Key::Mmb, free(),
        Message::Movement(MovementMessage::TranslateCanvasEnd));
    on_key_down(list, Key::KeyPlus, with(Key::KeyControl),
        Message::Movement(MovementMessage::IncreaseCanvasZoom));
    on_key_down(list, Key::KeyEquals, with(Key::KeyControl),
        Message::Movement(MovementMessage::IncreaseCanvasZoom));
    on_key_down(list, Key::KeyMinus, with(Key::KeyControl),
        Message::Movement(MovementMessage::DecreaseCanvasZoom));
    on_key_down(list, Key::Key1, with(Key::KeyControl),
        Message::Movement(MovementMessage::SetCanvasZoom(100)));
    on_key_down(list, Key::Key2, with(Key::KeyControl),
        Message::Movement(MovementMessage::SetCanvasZoom(200)));
    on_mouse_scroll(list, with(Key::KeyControl),
        Message::Movement(MovementMessage::WheelCanvasZoom));
    on_mouse_scroll(list, with(Key::KeyShift),
        Message::Movement(MovementMessage::WheelCanvasTranslate { use_y_as_x: true }));
    on_mouse_scroll(list, free(),
        Message::Movement(MovementMessage::WheelCanvasTranslate { use_y_as_x: false }));
    on_key_down(list, Key::KeyPageUp, with(Key::KeyShift),
        Message::Movement(MovementMessage::TranslateCanvasByViewportFraction(1, 0)));
    on_key_down(list, Key::KeyPageDown, with(Key::KeyShift),
        Message::Movement(MovementMessage::TranslateCanvasByViewportFraction(-1, 0)));
    on_key_down(list, Key::KeyPageUp, free(),
        Message::Movement(MovementMessage::TranslateCanvasByViewportFraction(0, 1)));
    on_key_down(list, Key::KeyPageDown, free(),
        Message::Movement(MovementMessage::TranslateCanvasByViewportFraction(0, -1)));
}

/// The bindings that open, close and change between documents, and those that copy layers.
pub open spec fn with_documents_bindings(list: Seq<MappingEntryView>) -> Seq<MappingEntryView> {
    list
        .push(key_down(Key::KeyN, set![Key::KeyControl],
            MessageView::Documents(DocumentsMessageView::NewDocument)))
        .push(key_down(Key::KeyTab, set![Key::KeyControl],
            MessageView::Documents(DocumentsMessageView::NextDocument)))
        .push(key_down(Key::KeyTab, set![Key::KeyControl, Key::KeyShift],
            MessageView::Documents(DocumentsMessageView::PrevDocument)))
        .push(key_down(Key::KeyW, set![Key::KeyControl, Key::KeyAlt],
            MessageView::Documents(DocumentsMessageView::CloseAllDocumentsWithConfirmation)))
        .push(key_down(Key::KeyW, set![Key::KeyControl],
            MessageView::Documents(DocumentsMessageView::CloseActiveDocumentWithConfirmation)))
        .push(key_down(Key::KeyD, set![Key::KeyControl],
            MessageView::Document(DocumentMessage::DuplicateSelectedLayers)))
        .push(key_down(Key::KeyC, set![Key::KeyControl],
            MessageView::Documents(DocumentsMessageView::CopySelectedLayers)))
}

/// The bindings that open, close and change between documents, and those that copy layers.
fn bind_documents(list: &mut Vec<MappingEntry>)
    ensures
        entry_views(final(list)@) == with_documents_bindings(entry_views(old(list)@)),
{
    on_key_down(list, Key::KeyN, with(Key::KeyControl),
        Message::Documents(DocumentsMessage::NewDocument));
    on_key_down(list, Key::KeyTab, with(Key::KeyControl),
        Message::Documents(DocumentsMessage::NextDocument));
    on_key_down(list, Key::KeyTab, with_both(Key::KeyControl, Key::KeyShift),
        Message::Documents(DocumentsMessage::PrevDocument));
    on_key_down(list, Key::KeyW, with_both(Key::KeyControl, Key::KeyAlt),
        Message::Documents(DocumentsMessage::CloseAllDocumentsWithConfirmation));
    on_key_down(list, Key::KeyW, with(Key::KeyControl),
        Message::Documents(DocumentsMessage::CloseActiveDocumentWithConfirmation));
    on_key_down(list, Key::KeyD, with(Key::KeyControl),
        Message::Document(DocumentMessage::DuplicateSelectedLayers));
    on_key_down(list, Key::KeyC, with(Key::KeyControl),
        Message::Documents(DocumentsMessage::CopySelectedLayers));
}

/// The bindings that move the selection by the larger step, while shift is held.
pub open spec fn with_shift_nudge_bindings(list: Seq<MappingEntryView>) -> Seq<MappingEntryView> {
    list
        .push(key_down(Key::KeyArrowUp, set![Key::KeyShift, Key::KeyArrowLeft],
            MessageView::Document(DocumentMessage::NudgeSelectedLayers((-SHIFT_NUDGE_AMOUNT) as i32, (-SHIFT_NUDGE_AMOUNT) as i32))))
        .push(key_down(Key::KeyArrowUp, set![Key::KeyShift, Key::KeyArrowRight],
            MessageView::Document(DocumentMessage::NudgeSelectedLayers(SHIFT_NUDGE_AMOUNT, (-SHIFT_NUDGE_AMOUNT) as i32))))
        .push(key_down(Key::KeyArrowUp, set![Key::KeyShift],
            MessageView::Document(DocumentMessage::NudgeSelectedLayers(0, (-SHIFT_NUDGE_AMOUNT) as i32))))
        .push(key_down(Key::KeyArrowDown, set![Key::KeyShift, Key::KeyArrowLeft],
            MessageView::Document(DocumentMessage::NudgeSelectedLayers((-SHIFT_NUDGE_AMOUNT) as i32, SHIFT_NUDGE_AMOUNT))))
        .push(key_down(Key::KeyArrowDown, set![Key::KeyShift, Key::KeyArrowRight],
            MessageView::Document(DocumentMessage::NudgeSelectedLayers(SHIFT_NUDGE_AMOUNT, SHIFT_NUDGE_AMOUNT))))
        .push(key_down(Key::KeyArrowDown, set![Key::KeyShift],
            MessageView::Document(DocumentMessage::NudgeSelectedLayers(0, SHIFT_NUDGE_AMOUNT))))
        .push(key_down(Key::KeyArrowLeft, set![Key::KeyShift, Key::KeyArrowUp],
            MessageView::Document(DocumentMessage::NudgeSelectedLayers((-SHIFT_NUDGE_AMOUNT) as i32, (-SHIFT_NUDGE_AMOUNT) as i32))))
        .push(key_down(Key::KeyArrowLeft, set![Key::KeyShift, Key::KeyArrowDown],
            MessageView::Document(DocumentMessage::NudgeSelectedLayers((-SHIFT_NUDGE_AMOUNT) as i32, SHIFT_NUDGE_AMOUNT))))
        .push(key_down(Key::KeyArrowLeft, set![Key::KeyShift],
            MessageView::Document(DocumentMessage::NudgeSelectedLayers((-SHIFT_NUDGE_AMOUNT) as i32, 0))))
        .push(key_down(Key::KeyArrowRight, set![Key::KeyShift, Key::KeyArrowUp],
            MessageView::Document(DocumentMessage::NudgeSelectedLayers(SHIFT_NUDGE_AMOUNT, (-SHIFT_NUDGE_AMOUNT) as i32))))
        .push(key_down(Key::KeyArrowRight, set![Key::KeyShift, Key::KeyArrowDown],
            MessageView::Document(DocumentMessage::NudgeSelectedLayers(SHIFT_NUDGE_AMOUNT, SHIFT_NUDGE_AMOUNT))))
        .push(key_down(Key::KeyArrowRight, set![Key::KeyShift],
            MessageView::Document(DocumentMessage::NudgeSelectedLayers(SHIFT_NUDGE_AMOUNT, 0))))
}

/// The bindings that move the selection by the larger step, while shift is held.
fn bind_shift_nudge(list: &mut Vec<MappingEntry>)
    ensures
        entry_views(final(list)@) == with_shift_nudge_bindings(entry_views(old(list)@)),
{
    on_key_down(list, Key::KeyArrowUp, with_both(Key::KeyShift, Key::KeyArrowLeft),
        Message::Document(DocumentMessage::NudgeSelectedLayers(-SHIFT_NUDGE_AMOUNT, -SHIFT_NUDGE_AMOUNT)));
    on_key_down(list, Key::KeyArrowUp, with_both(Key::KeyShift, Key::KeyArrowRight),
        Message::Document(DocumentMessage::NudgeSelectedLayers(SHIFT_NUDGE_AMOUNT, -SHIFT_NUDGE_AMOUNT)));
    on_key_down(list, Key::KeyArrowUp, with(Key::KeyShift),
        Message::Document(DocumentMessage::NudgeSelectedLayers(0, -SHIFT_NUDGE_AMOUNT)));
    on_key_down(list, Key::KeyArrowDown, with_both(Key::KeyShift, Key::KeyArrowLeft),
        Message::Document(DocumentMessage::NudgeSelectedLayers(-SHIFT_NUDGE_AMOUNT, SHIFT_NUDGE_AMOUNT)));
    on_key_down(list, Key::KeyArrowDown, with_both(Key::KeyShift, Key::KeyArrowRight),
        Message::Document(DocumentMessage::NudgeSelectedLayers(SHIFT_NUDGE_AMOUNT, SHIFT_NUDGE_AMOUNT)));
    on_key_down(list, Key::KeyArrowDown, with(Key::KeyShift),
        Message::Document(DocumentMessage::NudgeSelectedLayers(0, SHIFT_NUDGE_AMOUNT)));
    on_key_down(list, Key::KeyArrowLeft, with_both(Key::KeyShift, Key::KeyArrowUp),
        Message::Document(DocumentMessage::NudgeSelectedLayers(-SHIFT_NUDGE_AMOUNT, -SHIFT_NUDGE_AMOUNT)));
    on_key_down(list, Key::KeyArrowLeft, with_both(Key::KeyShift, Key::KeyArrowDown),
        Message::Document(DocumentMessage::NudgeSelectedLayers(-SHIFT_NUDGE_AMOUNT, SHIFT_NUDGE_AMOUNT)));
    on_key_down(list, Key::KeyArrowLeft, with(Key::KeyShift),
        Message::Document(DocumentMessage::NudgeSelectedLayers(-SHIFT_NUDGE_AMOUNT, 0)));
    on_key_down(list, Key::KeyArrowRight, with_both(Key::KeyShift, Key::KeyArrowUp),
        Message::Document(DocumentMessage::NudgeSelectedLayers(SHIFT_NUDGE_AMOUNT, -SHIFT_NUDGE_AMOUNT)));
    on_key_down(list, Key::KeyArrowRight, with_both(Key::KeyShift, Key::KeyArrowDown),
        Message::Document(DocumentMessage::NudgeSelectedLayers(SHIFT_NUDGE_AMOUNT, SHIFT_NUDGE_AMOUNT)));
    on_key_down(list, Key::KeyArrowRight, with(Key::KeyShift),
        Message::Document(DocumentMessage::NudgeSelectedLayers(SHIFT_NUDGE_AMOUNT, 0)));
}

/// The bindings that move the selection by the smaller step, and those that move it up and down among the layers.
pub open spec fn with_nudge_bindings(list: Seq<MappingEntryView>) -> Seq<MappingEntryView> {
    list
        .push(key_down(Key::KeyArrowUp, set![Key::KeyArrowLeft],
            MessageView::Document(DocumentMessage::NudgeSelectedLayers((-NUDGE_AMOUNT) as i32, (-NUDGE_AMOUNT) as i32))))
        .push(key_down(Key::KeyArrowUp, set![Key::KeyArrowRight],
            MessageView::Document(DocumentMessage::NudgeSelectedLayers(NUDGE_AMOUNT, (-NUDGE_AMOUNT) as i32))))
        .push(key_down(Key::KeyArrowUp, set![],
            MessageView::Document(DocumentMessage::NudgeSelectedLayers(0, (-NUDGE_AMOUNT) as i32))))
        .push(key_down(Key::KeyArrowDown, set![Key::KeyArrowLeft],
            MessageView::Document(DocumentMessage::NudgeSelectedLayers((-NUDGE_AMOUNT) as i32, NUDGE_AMOUNT))))
        .push(key_down(Key::KeyArrowDown, set![Key::KeyArrowRight],
            MessageView::Document(DocumentMessage::NudgeSelectedLayers(NUDGE_AMOUNT, NUDGE_AMOUNT))))
        .push(key_down(Key::KeyArrowDown, set![],
            MessageView::Document(DocumentMessage::NudgeSelectedLayers(0, NUDGE_AMOUNT))))
        .push(key_down(Key::KeyArrowLeft, set![Key::KeyArrowUp],
            MessageView::Document(DocumentMessage::NudgeSelectedLayers((-NUDGE_AMOUNT) as i32, (-NUDGE_AMOUNT) as i32))))
        .push(key_down(Key::KeyArrowLeft, set![Key::KeyArrowDown],
            MessageView::Document(DocumentMessage::NudgeSelectedLayers((-NUDGE_AMOUNT) as i32, NUDGE_AMOUNT))))
        .push(key_down(Key::KeyArrowLeft, set![],
            MessageView::Document(DocumentMessage::NudgeSelectedLayers((-NUDGE_AMOUNT) as i32, 0))))
        .push(key_down(Key::KeyArrowRight, set![Key::KeyArrowUp],
            MessageView::Document(DocumentMessage::NudgeSelectedLayers(NUDGE_AMOUNT, (-NUDGE_AMOUNT) as i32))))
        .push(key_down(Key::KeyArrowRight, set![Key::KeyArrowDown],
            MessageView::Document(DocumentMessage::NudgeSelectedLayers(NUDGE_AMOUNT, NUDGE_AMOUNT))))
        .push(key_down(Key::KeyArrowRight, set![],
            MessageView::Document(DocumentMessage::NudgeSelectedLayers(NUDGE_AMOUNT, 0))))
        .push(key_down(Key::KeyRightCurlyBracket, set![Key::KeyControl],
            MessageView::Document(DocumentMessage::ReorderSelectedLayers(i32::MAX))))
        .push(key_down(Key::KeyRightBracket, set![Key::KeyControl],
            MessageView::Document(DocumentMessage::ReorderSelectedLayers(1))))
        .push(key_down(Key::KeyLeftBracket, set![Key::KeyControl],
            MessageView::Document(DocumentMessage::ReorderSelectedLayers(-1i32))))
        .push(key_down(Key::KeyLeftCurlyBracket, set![Key::KeyControl],
            MessageView::Document(DocumentMessage::ReorderSelectedLayers(i32::MIN))))
}

/// The bindings that move the selection by the smaller step, and those that move it up and down among the layers.
fn bind_nudge(list: &mut Vec<MappingEntry>)
    ensures
        entry_views(final(list)@) == with_nudge_bindings(entry_views(old(list)@)),
{
    on_key_down(list, Key::KeyArrowUp, with(Key::KeyArrowLeft),
        Message::Document(DocumentMessage::NudgeSelectedLayers(-NUDGE_AMOUNT, -NUDGE_AMOUNT)));
    on_key_down(list, Key::KeyArrowUp, with(Key::KeyArrowRight),
        Message::Document(DocumentMessage::NudgeSelectedLayers(NUDGE_AMOUNT, -NUDGE_AMOUNT)));
    on_key_down(list, Key::KeyArrowUp, free(),
        Message::Document(DocumentMessage::NudgeSelectedLayers(0, -NUDGE_AMOUNT)));
    on_key_down(list, Key::KeyArrowDown, with(Key::KeyArrowLeft),
        Message::Document(DocumentMessage::NudgeSelectedLayers(-NUDGE_AMOUNT, NUDGE_AMOUNT)));
    on_key_down(list, Key::KeyArrowDown, with(Key::KeyArrowRight),
        Message::Document(DocumentMessage::NudgeSelectedLayers(NUDGE_AMOUNT, NUDGE_AMOUNT)));
    on_key_down(list, Key::KeyArrowDown, free(),
        Message::Document(DocumentMessage::NudgeSelectedLayers(0, NUDGE_AMOUNT)));
    on_key_down(list, Key::KeyArrowLeft, with(Key::KeyArrowUp),
        Message::Document(DocumentMessage::NudgeSelectedLayers(-NUDGE_AMOUNT, -NUDGE_AMOUNT)));
    on_key_down(list, Key::KeyArrowLeft, with(Key::KeyArrowDown),
        Message::Document(DocumentMessage::NudgeSelectedLayers(-NUDGE_AMOUNT, NUDGE_AMOUNT)));
    on_key_down(list, Key::KeyArrowLeft, free(),
        Message::Document(DocumentMessage::NudgeSelectedLayers(-NUDGE_AMOUNT, 0)));
    on_key_down(list, Key::KeyArrowRight, with(Key::KeyArrowUp),
        Message::Document(DocumentMessage::NudgeSelectedLayers(NUDGE_AMOUNT, -NUDGE_AMOUNT)));
    on_key_down(list, Key::KeyArrowRight, with(Key::KeyArrowDown),
        Message::Document(DocumentMessage::NudgeSelectedLayers(NUDGE_AMOUNT, NUDGE_AMOUNT)));
    on_key_down(list, Key::KeyArrowRight, free(),
        Message::Document(DocumentMessage::NudgeSelectedLayers(NUDGE_AMOUNT, 0)));
    on_key_down(list, Key::KeyRightCurlyBracket, with(Key::KeyControl),
        Message::Document(DocumentMessage::ReorderSelectedLayers(i32::MAX)));
    on_key_down(list, Key::KeyRightBracket, with(Key::KeyControl),
        Message::Document(DocumentMessage::ReorderSelectedLayers(1)));
    on_key_down(list, Key::KeyLeftBracket, with(Key::KeyControl),
        Message::Document(DocumentMessage::ReorderSelectedLayers(-1)));
    on_key_down(list, Key::KeyLeftCurlyBracket, with(Key::KeyControl),
        Message::Document(DocumentMessage::ReorderSelectedLayers(i32::MIN)));
}

/// The bindings of the whole editor.
pub open spec fn with_global_bindings(list: Seq<MappingEntryView>) -> Seq<MappingEntryView> {
    list
        .push(key_down(Key::Key1, set![],
            MessageView::Global(GlobalMessage::LogInfo)))
        .push(key_down(Key::Key2, set![],
            MessageView::Global(GlobalMessage::LogDebug)))
        .push(key_down(Key::Key3, set![],
            MessageView::Global(GlobalMessage::LogTrace)))
}

/// The bindings of the whole editor.
fn bind_global(list: &mut Vec<MappingEntry>)
    ensures
        entry_views(final(list)@) == with_global_bindings(entry_views(old(list)@)),
{
    on_key_down(list, Key::Key1, free(),
        Message::Global(GlobalMessage::LogInfo));
    on_key_down(list, Key::Key2, free(),
        Message::Global(GlobalMessage::LogDebug));
    on_key_down(list, Key::Key3, free(),
        Message::Global(GlobalMessage::LogTrace));
}

/// The bindings of the editor, in the order of their declaration. Where two
/// bindings of one input ask for equally many modifiers, the one that stands
/// first here is tried first.
pub open spec fn default_binding_list() -> Seq<MappingEntryView> {
    let list = Seq::<MappingEntryView>::empty();
    let list = with_general_bindings(list);
    let list = with_select_bindings(list);
    let list = with_eyedropper_bindings(list);
    let list = with_rectangle_bindings(list);
    let list = with_ellipse_bindings(list);
    let list = with_shape_bindings(list);
    let list = with_line_bindings(list);
    let list = with_pen_bindings(list);
    let list = with_fill_bindings(list);
    let list = with_tool_choice_bindings(list);
    let list = with_document_bindings(list);
    let list = with_movement_bindings(list);
    let list = with_documents_bindings(list);
    let list = with_shift_nudge_bindings(list);
    let list = with_nudge_bindings(list);
    let list = with_global_bindings(list);
    list
}

/// The bindings of the editor, in the order of their declaration.
pub fn default_bindings() -> (list: Vec<MappingEntry>)
    ensures
        entry_views(list@) == default_binding_list(),
{
    let mut list: Vec<MappingEntry> = Vec::new();
    assert(entry_views(list@) =~= Seq::<MappingEntryView>::empty());
    bind_general(&mut list);
    bind_select(&mut list);
    bind_eyedropper(&mut list);
    bind_rectangle(&mut list);
    bind_ellipse(&mut list);
    bind_shape(&mut list);
    bind_line(&mut list);
    bind_pen(&mut list);
    bind_fill(&mut list);
    bind_tool_choice(&mut list);
    bind_document(&mut list);
    bind_movement(&mut list);
    bind_documents(&mut list);
    bind_shift_nudge(&mut list);
    bind_nudge(&mut list);
    bind_global(&mut list);
    list
}

} // verus!
