use input_dispatch::hint::HintData;
use input_dispatch::hint::HintGroup;
use input_dispatch::hint::HintInfo;
use input_dispatch::hint::KeysGroup;
use input_dispatch::hint::MouseCursorIcon;
use input_dispatch::hint::MouseMotion;
use input_dispatch::input_mapper::InputMapper;
use input_dispatch::input_mapper::InputMapperMessage;
use input_dispatch::input_preprocessor::InputPreprocessor;
use input_dispatch::input_preprocessor::MouseState;
use input_dispatch::keyboard::Key;
use input_dispatch::keyboard::KeyStates;
use input_dispatch::message::DocumentMessage;
use input_dispatch::message::FrontendMessage;
use input_dispatch::message::Message;
use input_dispatch::message::MessageDiscriminant;
use input_dispatch::message::Operation;
use input_dispatch::message::SelectMessage;
use input_dispatch::message::ToolMessage;
use input_dispatch::message::ToolMessageDiscriminant;
use input_dispatch::message::ToolType;
use input_dispatch::rectangle_tool::RectangleTool;
use input_dispatch::rectangle_tool::RectangleToolData;
use input_dispatch::rectangle_tool::RectangleToolFsmState;
use input_dispatch::rectangle_tool::RectangleToolMessage;
use input_dispatch::rectangle_tool::RectangleToolMessageDiscriminant;
use input_dispatch::resize::within_drag_threshold;
use input_dispatch::resize::Resize;
use input_dispatch::resize::DRAG_THRESHOLD;
use input_dispatch::style::Affine;
use input_dispatch::style::Color;
use input_dispatch::style::Fill;
use input_dispatch::style::PathStyle;
use input_dispatch::style::ViewportPosition;
use input_dispatch::tool::DocumentToolData;
use input_dispatch::tool::Fsm;
use input_dispatch::tool::SignalToMessageMap;
use input_dispatch::tool::ToolActionHandlerData;
use std::collections::VecDeque;

const RED: Color = Color { red: 255, green: 0, blue: 0, alpha: 255 };
const BLUE: Color = Color { red: 0, green: 0, blue: 255, alpha: 255 };

fn held(keys: &[Key]) -> KeyStates {
    let mut states = KeyStates::new();
    for key in keys {
        states.set(*key);
    }
    states
}

fn at(x: i32, y: i32) -> ViewportPosition {
    ViewportPosition { x, y }
}

fn context(keys: &[Key], x: i32, y: i32) -> ToolActionHandlerData {
    ToolActionHandlerData {
        new_layer_path: vec![7, 9],
        global_tool_data: DocumentToolData { primary_color: RED, secondary_color: BLUE },
        input: InputPreprocessor { keyboard: held(keys), mouse: MouseState { position: at(x, y) } },
    }
}

fn rectangle(action: RectangleToolMessage) -> ToolMessage {
    ToolMessage::Rectangle(action)
}

fn document(action: DocumentMessage) -> Message {
    Message::Document(action)
}

fn resize() -> ToolMessage {
    rectangle(RectangleToolMessage::Resize { center: Key::KeyAlt, lock_ratio: Key::KeyShift })
}

fn hint(keys: &[Key], mouse: Option<MouseMotion>, label: &str, plus: bool) -> HintInfo {
    HintInfo {
        key_groups: if keys.is_empty() { vec![] } else { vec![KeysGroup(keys.to_vec())] },
        mouse,
        label: String::from(label),
        plus,
    }
}

fn ready_hints() -> Message {
    Message::Frontend(FrontendMessage::UpdateInputHints {
        hint_data: HintData(vec![HintGroup(vec![
            hint(&[], Some(MouseMotion::LmbDrag), "Draw Rectangle", false),
            hint(&[Key::KeyShift], None, "Constrain Square", true),
            hint(&[Key::KeyAlt], None, "From Center", true),
        ])]),
    })
}

fn drawing_hints() -> Message {
    Message::Frontend(FrontendMessage::UpdateInputHints {
        hint_data: HintData(vec![HintGroup(vec![
            hint(&[Key::KeyShift], None, "Constrain Square", false),
            hint(&[Key::KeyAlt], None, "From Center", false),
        ])]),
    })
}

fn crosshair() -> Message {
    Message::Frontend(FrontendMessage::UpdateMouseCursor { cursor: MouseCursorIcon::Crosshair })
}

fn add_rect() -> Message {
    Message::Operation(Operation::AddRect {
        path: vec![7, 9],
        insert_index: -1,
        transform: Affine { x_axis: (0, 0), y_axis: (0, 0), translation: (0, 0) },
        style: PathStyle { stroke: None, fill: Fill::Solid(RED) },
    })
}

fn transform(path: Vec<u64>, scale: (i64, i64), translation: (i64, i64)) -> Message {
    Message::Operation(Operation::SetLayerTransformInViewport {
        path,
        transform: Affine { x_axis: (scale.0, 0), y_axis: (0, scale.1), translation },
    })
}

fn drawing_tool(x: i32, y: i32) -> RectangleTool {
    let mut tool = RectangleTool::default();
    let mut responses = VecDeque::new();
    tool.process_action(rectangle(RectangleToolMessage::DragStart), &context(&[Key::Lmb], x, y), &mut responses);
    assert_eq!(tool.fsm_state(), RectangleToolFsmState::Drawing);
    tool
}

#[test]
fn tool_starts_ready_and_without_a_layer() {
    let tool = RectangleTool::default();
    assert_eq!(tool.fsm_state(), RectangleToolFsmState::Ready);
    assert_eq!(tool.tool_data().data.path, None);
    assert_eq!(RectangleToolFsmState::default(), RectangleToolFsmState::Ready);
    assert_eq!(RectangleToolData::default().data, Resize::default());
}

#[test]
fn drag_start_begins_a_transaction_and_adds_the_rectangle() {
    let mut tool = RectangleTool::default();
    let mut responses = VecDeque::new();
    tool.process_action(rectangle(RectangleToolMessage::DragStart), &context(&[Key::Lmb], 30, 40), &mut responses);
    assert_eq!(tool.fsm_state(), RectangleToolFsmState::Drawing);
    assert_eq!(tool.tool_data().data, Resize { drag_start: at(30, 40), path: Some(vec![7, 9]) });
    assert_eq!(
        responses,
        VecDeque::from(vec![
            document(DocumentMessage::StartTransaction),
            document(DocumentMessage::DeselectAllLayers),
            add_rect(),
            drawing_hints(),
            crosshair(),
        ])
    );
}

#[test]
fn drag_stop_far_from_the_start_commits() {
    let mut tool = drawing_tool(30, 40);
    let mut responses = VecDeque::new();
    tool.process_action(rectangle(RectangleToolMessage::DragStop), &context(&[], 31, 41), &mut responses);
    assert_eq!(tool.fsm_state(), RectangleToolFsmState::Ready);
    assert_eq!(tool.tool_data().data, Resize { drag_start: at(30, 40), path: None });
    assert_eq!(responses, VecDeque::from(vec![document(DocumentMessage::CommitTransaction), ready_hints(), crosshair()]));
}

#[test]
fn drag_stop_within_the_threshold_aborts() {
    for (x, y) in [(30, 40), (31, 40), (30, 39)] {
        let mut tool = drawing_tool(30, 40);
        let mut responses = VecDeque::new();
        tool.process_action(rectangle(RectangleToolMessage::DragStop), &context(&[], x, y), &mut responses);
        assert_eq!(tool.fsm_state(), RectangleToolFsmState::Ready);
        assert_eq!(responses, VecDeque::from(vec![document(DocumentMessage::AbortTransaction), ready_hints(), crosshair()]));
    }
}

#[test]
fn abort_gives_up_the_drag() {
    let mut tool = drawing_tool(30, 40);
    let mut responses = VecDeque::new();
    tool.process_action(rectangle(RectangleToolMessage::Abort), &context(&[], 300, 400), &mut responses);
    assert_eq!(tool.fsm_state(), RectangleToolFsmState::Ready);
    assert_eq!(tool.tool_data().data.path, None);
    assert_eq!(responses, VecDeque::from(vec![document(DocumentMessage::AbortTransaction), ready_hints(), crosshair()]));
}

#[test]
fn resize_keeps_the_state_and_sends_no_hints() {
    let mut tool = drawing_tool(30, 40);
    let mut responses = VecDeque::new();
    tool.process_action(resize(), &context(&[], 50, 45), &mut responses);
    assert_eq!(tool.fsm_state(), RectangleToolFsmState::Drawing);
    assert_eq!(tool.tool_data().data, Resize { drag_start: at(30, 40), path: Some(vec![7, 9]) });
    assert_eq!(responses, VecDeque::from(vec![transform(vec![7, 9], (20, 5), (30, 40))]));
}

#[test]
fn resize_without_a_layer_does_nothing() {
    let mut tool = RectangleTool::default();
    let mut responses = VecDeque::new();
    tool.process_action(resize(), &context(&[Key::KeyShift], 50, 45), &mut responses);
    assert_eq!(tool.fsm_state(), RectangleToolFsmState::Ready);
    assert!(responses.is_empty());
}

#[test]
fn unhandled_actions_change_nothing() {
    let others = [
        ToolMessage::ResetColors,
        ToolMessage::SwapColors,
        ToolMessage::SelectTool(ToolType::Pen),
        ToolMessage::Select(SelectMessage::DragStop),
    ];
    let in_ready = [rectangle(RectangleToolMessage::DragStop), rectangle(RectangleToolMessage::Abort)];
    for action in others.iter().chain(in_ready.iter()) {
        let mut tool = RectangleTool::default();
        let mut responses = VecDeque::from(vec![document(DocumentMessage::Undo)]);
        tool.process_action(*action, &context(&[Key::KeyShift], 5, 6), &mut responses);
        assert_eq!(tool.fsm_state(), RectangleToolFsmState::Ready);
        assert_eq!(tool.tool_data().data, Resize::default());
        assert_eq!(responses, VecDeque::from(vec![document(DocumentMessage::Undo)]));
    }
    for action in others.iter().chain([rectangle(RectangleToolMessage::DragStart)].iter()) {
        let mut tool = drawing_tool(30, 40);
        let mut responses = VecDeque::new();
        tool.process_action(*action, &context(&[Key::KeyShift], 5, 6), &mut responses);
        assert_eq!(tool.fsm_state(), RectangleToolFsmState::Drawing);
        assert_eq!(tool.tool_data().data, Resize { drag_start: at(30, 40), path: Some(vec![7, 9]) });
        assert!(responses.is_empty());
    }
}

#[test]
fn transition_alone_never_sends_hints_or_cursor() {
    let mut data = RectangleToolData::default();
    let mut responses = VecDeque::new();
    let next = RectangleToolFsmState::Ready.transition(
        rectangle(RectangleToolMessage::DragStart),
        &mut data,
        &context(&[], 1, 2),
        &mut responses,
    );
    assert_eq!(next, RectangleToolFsmState::Drawing);
    assert_eq!(
        responses,
        VecDeque::from(vec![document(DocumentMessage::StartTransaction), document(DocumentMessage::DeselectAllLayers), add_rect()])
    );
    let next = next.transition(rectangle(RectangleToolMessage::DragStart), &mut data, &context(&[], 8, 9), &mut responses);
    assert_eq!(next, RectangleToolFsmState::Drawing);
    assert_eq!(data.data.drag_start, at(1, 2));
    assert_eq!(responses.len(), 3);
}

#[test]
fn update_requests_send_hints_or_cursor_and_keep_the_state() {
    let mut tool = RectangleTool::default();
    let mut responses = VecDeque::new();
    tool.process_action(ToolMessage::UpdateHints, &context(&[], 0, 0), &mut responses);
    assert_eq!(responses, VecDeque::from(vec![ready_hints()]));
    tool.process_action(ToolMessage::UpdateCursor, &context(&[], 0, 0), &mut responses);
    assert_eq!(responses, VecDeque::from(vec![ready_hints(), crosshair()]));
    assert_eq!(tool.fsm_state(), RectangleToolFsmState::Ready);
    let mut tool = drawing_tool(3, 4);
    let mut responses = VecDeque::new();
    tool.process_action(ToolMessage::UpdateHints, &context(&[], 0, 0), &mut responses);
    assert_eq!(responses, VecDeque::from(vec![drawing_hints()]));
    assert_eq!(tool.fsm_state(), RectangleToolFsmState::Drawing);
    assert_eq!(tool.tool_data().data.path, Some(vec![7, 9]));
}

#[test]
fn driver_works_on_a_state_and_its_data() {
    let mut state = RectangleToolFsmState::Ready;
    let mut data = RectangleToolData::default();
    let mut responses = VecDeque::new();
    input_dispatch::tool::process_action(&mut state, &mut data, rectangle(RectangleToolMessage::DragStart), &context(&[], 2, 3), &mut responses);
    assert_eq!(state, RectangleToolFsmState::Drawing);
    assert_eq!(responses.len(), 5);
    input_dispatch::tool::process_action(&mut state, &mut data, resize(), &context(&[], 5, 9), &mut responses);
    assert_eq!(state, RectangleToolFsmState::Drawing);
    assert_eq!(responses.len(), 6);
    input_dispatch::tool::process_action(&mut state, &mut data, ToolMessage::UpdateCursor, &context(&[], 5, 9), &mut responses);
    assert_eq!(responses.len(), 7);
    assert_eq!(responses[6], crosshair());
    assert!(state.same_state(&RectangleToolFsmState::Drawing));
    assert!(!state.same_state(&RectangleToolFsmState::Ready));
}

#[test]
fn emitters_send_one_message_each() {
    let mut responses = VecDeque::new();
    RectangleToolFsmState::Drawing.update_hints(&mut responses);
    RectangleToolFsmState::Ready.update_hints(&mut responses);
    RectangleToolFsmState::Ready.update_cursor(&mut responses);
    RectangleToolFsmState::Drawing.update_cursor(&mut responses);
    assert_eq!(responses, VecDeque::from(vec![drawing_hints(), ready_hints(), crosshair(), crosshair()]));
}

#[test]
fn advertised_actions_follow_the_state() {
    let start = MessageDiscriminant::Tool(ToolMessageDiscriminant::Rectangle(RectangleToolMessageDiscriminant::DragStart));
    let stop = MessageDiscriminant::Tool(ToolMessageDiscriminant::Rectangle(RectangleToolMessageDiscriminant::DragStop));
    let abort = MessageDiscriminant::Tool(ToolMessageDiscriminant::Rectangle(RectangleToolMessageDiscriminant::Abort));
    let resize = MessageDiscriminant::Tool(ToolMessageDiscriminant::Rectangle(RectangleToolMessageDiscriminant::Resize));
    assert_eq!(RectangleTool::default().actions(), vec![vec![start]]);
    assert_eq!(drawing_tool(0, 0).actions(), vec![vec![stop, abort, resize]]);
}

#[test]
fn end_to_end_drag_that_does_not_move() {
    let mut mapper = InputMapper::default();
    let mut tool = RectangleTool::default();
    let mut queue: VecDeque<Message> = VecDeque::new();

    let pressed = context(&[Key::Lmb], 100, 100);
    mapper.process_action(InputMapperMessage::KeyDown(Key::Lmb), (&pressed.input, tool.actions()), &mut queue);
    assert_eq!(queue, VecDeque::from(vec![Message::Tool(rectangle(RectangleToolMessage::DragStart))]));
    let action = match queue.pop_front() {
        Some(Message::Tool(action)) => action,
        other => panic!("no tool action: {:?}", other),
    };
    tool.process_action(action, &pressed, &mut queue);
    assert_eq!(tool.fsm_state(), RectangleToolFsmState::Drawing);
    assert_eq!(queue.len(), 5);
    assert_eq!(queue[3], drawing_hints());
    assert_eq!(queue[4], crosshair());
    queue.clear();

    let released = context(&[], 100, 101);
    mapper.process_action(InputMapperMessage::KeyUp(Key::Lmb), (&released.input, tool.actions()), &mut queue);
    assert_eq!(queue, VecDeque::from(vec![Message::Tool(rectangle(RectangleToolMessage::DragStop))]));
    let action = match queue.pop_front() {
        Some(Message::Tool(action)) => action,
        other => panic!("no tool action: {:?}", other),
    };
    tool.process_action(action, &released, &mut queue);
    assert_eq!(tool.fsm_state(), RectangleToolFsmState::Ready);
    assert_eq!(queue, VecDeque::from(vec![document(DocumentMessage::AbortTransaction), ready_hints(), crosshair()]));

    mapper.process_action(InputMapperMessage::KeyUp(Key::Lmb), (&released.input, tool.actions()), &mut queue);
    assert_eq!(queue.len(), 3);
}

#[test]
fn drag_threshold_goes_by_straight_distance() {
    assert_eq!(DRAG_THRESHOLD, 1);
    assert!(within_drag_threshold(at(5, 5), at(5, 5)));
    assert!(within_drag_threshold(at(5, 5), at(6, 5)));
    assert!(within_drag_threshold(at(5, 5), at(5, 4)));
    assert!(!within_drag_threshold(at(5, 5), at(6, 6)));
    assert!(!within_drag_threshold(at(5, 5), at(7, 5)));
    assert!(!within_drag_threshold(at(i32::MIN, i32::MIN), at(i32::MAX, i32::MAX)));
    assert!(within_drag_threshold(at(i32::MAX, i32::MIN), at(i32::MAX, i32::MIN + 1)));
}

#[test]
fn calculate_transform_places_the_box_of_the_drag() {
    let mut drag = Resize::new();
    drag.start(at(10, 20));
    assert_eq!(drag.calculate_transform(Key::KeyAlt, Key::KeyShift, &context(&[], 40, 30).input), None);
    drag.path = Some(vec![1]);
    let plain = drag.calculate_transform(Key::KeyAlt, Key::KeyShift, &context(&[Key::KeyControl], 40, 30).input);
    assert_eq!(plain, Some(transform(vec![1], (30, 10), (10, 20))));
    let square = drag.calculate_transform(Key::KeyAlt, Key::KeyShift, &context(&[Key::KeyShift], 40, 10).input);
    assert_eq!(square, Some(transform(vec![1], (30, -30), (10, 20))));
    let square = drag.calculate_transform(Key::KeyAlt, Key::KeyShift, &context(&[Key::KeyShift], 10, 0).input);
    assert_eq!(square, Some(transform(vec![1], (20, -20), (10, 20))));
    let centred = drag.calculate_transform(Key::KeyAlt, Key::KeyShift, &context(&[Key::KeyAlt], 40, 30).input);
    assert_eq!(centred, Some(transform(vec![1], (60, 20), (-20, 10))));
    let both = drag.calculate_transform(Key::KeyAlt, Key::KeyShift, &context(&[Key::KeyAlt, Key::KeyShift], 5, 30).input);
    assert_eq!(both, Some(transform(vec![1], (-20, 20), (20, 10))));
    let other_keys = drag.calculate_transform(Key::KeyA, Key::KeyB, &context(&[Key::KeyAlt, Key::KeyShift], 40, 30).input);
    assert_eq!(other_keys, Some(transform(vec![1], (30, 10), (10, 20))));
}

#[test]
fn calculate_transform_stays_in_range_at_the_corners_of_the_viewport() {
    let mut drag = Resize::new();
    drag.start(at(i32::MIN, i32::MAX));
    drag.path = Some(vec![]);
    let far = drag.calculate_transform(Key::KeyAlt, Key::KeyShift, &context(&[Key::KeyAlt, Key::KeyShift], i32::MAX, i32::MIN).input);
    let side = 4294967295i64;
    assert_eq!(far, Some(transform(vec![], (2 * side, -2 * side), (i32::MIN as i64 - side, i32::MAX as i64 + side))));
}

#[test]
fn cleanup_lets_the_layer_go() {
    let mut drag = Resize { drag_start: at(1, 2), path: Some(vec![4]) };
    drag.cleanup();
    assert_eq!(drag, Resize { drag_start: at(1, 2), path: None });
}

#[test]
fn tool_metadata() {
    let tool = RectangleTool::default();
    assert_eq!(tool.icon_name(), "VectorRectangleTool");
    assert_eq!(tool.tooltip(), "Rectangle Tool (M)");
    assert_eq!(tool.tool_type(), ToolType::Rectangle);
    assert_eq!(
        tool.signal_to_message_map(),
        SignalToMessageMap { document_dirty: None, tool_abort: Some(rectangle(RectangleToolMessage::Abort)), selection_changed: None }
    );
}

#[test]
fn rectangle_message_discriminants() {
    assert_eq!(RectangleToolMessage::Abort.to_discriminant(), RectangleToolMessageDiscriminant::Abort);
    assert_eq!(RectangleToolMessage::DragStart.to_discriminant(), RectangleToolMessageDiscriminant::DragStart);
    assert_eq!(RectangleToolMessage::DragStop.to_discriminant(), RectangleToolMessageDiscriminant::DragStop);
    assert_eq!(
        RectangleToolMessage::Resize { center: Key::KeyA, lock_ratio: Key::KeyB }.to_discriminant(),
        RectangleToolMessageDiscriminant::Resize
    );
    assert_eq!(RectangleToolMessageDiscriminant::DragStop.name(), "DragStop");
}

#[test]
fn affine_constructors() {
    assert_eq!(Affine::zero(), Affine { x_axis: (0, 0), y_axis: (0, 0), translation: (0, 0) });
    assert_eq!(Affine::from_scale_translation((2, 3), (4, 5)), Affine { x_axis: (2, 0), y_axis: (0, 3), translation: (4, 5) });
    assert_eq!(Fill::solid(RED), Fill::Solid(RED));
    assert_eq!(PathStyle::new(None, Fill::Unfilled), PathStyle { stroke: None, fill: Fill::Unfilled });
}
