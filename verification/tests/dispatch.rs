use input_dispatch::default_mapping::default_bindings;
use input_dispatch::input_mapper::advertises;
use input_dispatch::input_mapper::is_hidden_from_hints;
use input_dispatch::input_mapper::InputMapper;
use input_dispatch::input_mapper::InputMapperMessage;
use input_dispatch::input_mapper::KeyMappingEntries;
use input_dispatch::input_mapper::Mapping;
use input_dispatch::input_mapper::MappingEntry;
use input_dispatch::input_preprocessor::InputPreprocessor;
use input_dispatch::input_preprocessor::MouseState;
use input_dispatch::keyboard::Key;
use input_dispatch::keyboard::KeyStates;
use input_dispatch::message::ActionList;
use input_dispatch::message::DocumentMessage;
use input_dispatch::message::DocumentMessageDiscriminant;
use input_dispatch::message::DocumentsMessage;
use input_dispatch::message::GlobalMessage;
use input_dispatch::message::GlobalMessageDiscriminant;
use input_dispatch::message::Message;
use input_dispatch::message::MessageDiscriminant;
use input_dispatch::message::MovementMessage;
use input_dispatch::message::MovementMessageDiscriminant;
use input_dispatch::message::SelectMessage;
use input_dispatch::message::ToolMessage;
use input_dispatch::message::ToolMessageDiscriminant;
use input_dispatch::message::ToolType;
use input_dispatch::rectangle_tool::RectangleToolMessage;
use input_dispatch::rectangle_tool::RectangleToolMessageDiscriminant;
use input_dispatch::style::ViewportPosition;
use std::collections::VecDeque;

fn held(keys: &[Key]) -> KeyStates {
    let mut states = KeyStates::new();
    for key in keys {
        states.set(*key);
    }
    states
}

fn entry(trigger: InputMapperMessage, modifiers: &[Key], action: Message) -> MappingEntry {
    MappingEntry { trigger, modifiers: held(modifiers), action }
}

fn document(action: DocumentMessage) -> Message {
    Message::Document(action)
}

fn rectangle(action: RectangleToolMessage) -> Message {
    Message::Tool(ToolMessage::Rectangle(action))
}

fn rectangle_action(action: RectangleToolMessageDiscriminant) -> MessageDiscriminant {
    MessageDiscriminant::Tool(ToolMessageDiscriminant::Rectangle(action))
}

fn document_action(action: DocumentMessageDiscriminant) -> MessageDiscriminant {
    MessageDiscriminant::Document(action)
}

fn input(keys: &[Key]) -> InputPreprocessor {
    InputPreprocessor { keyboard: held(keys), mouse: MouseState { position: ViewportPosition { x: 0, y: 0 } } }
}

#[test]
fn discriminant_forgets_what_a_message_carries() {
    let first = rectangle(RectangleToolMessage::Resize { center: Key::KeyAlt, lock_ratio: Key::KeyShift });
    let second = rectangle(RectangleToolMessage::Resize { center: Key::KeyA, lock_ratio: Key::KeyB });
    assert_ne!(first, second);
    assert_eq!(first.to_discriminant(), second.to_discriminant());
    assert_eq!(first.to_discriminant(), rectangle_action(RectangleToolMessageDiscriminant::Resize));
    assert_eq!(first.to_discriminant().name(), "Resize");
    assert_eq!(document(DocumentMessage::NudgeSelectedLayers(1, -1)).to_discriminant().name(), "NudgeSelectedLayers");
    assert_eq!(Message::Tool(ToolMessage::SelectTool(ToolType::Pen)).to_discriminant().name(), "SelectTool");
}

#[test]
fn clone_of_a_message_says_the_same() {
    let message = Message::Documents(DocumentsMessage::PasteLayers { path: vec![3, 1, 4], insert_index: -1 });
    assert_eq!(message.clone(), message);
}

#[test]
fn advertises_looks_into_every_group() {
    let actions: ActionList = vec![
        vec![rectangle_action(RectangleToolMessageDiscriminant::DragStart)],
        vec![],
        vec![document_action(DocumentMessageDiscriminant::Undo), document_action(DocumentMessageDiscriminant::SaveDocument)],
    ];
    assert!(advertises(&actions, rectangle_action(RectangleToolMessageDiscriminant::DragStart)));
    assert!(advertises(&actions, document_action(DocumentMessageDiscriminant::SaveDocument)));
    assert!(!advertises(&actions, rectangle_action(RectangleToolMessageDiscriminant::DragStop)));
    assert!(!advertises(&Vec::new(), document_action(DocumentMessageDiscriminant::Undo)));
}

#[test]
fn match_mapping_takes_the_first_binding_that_may_fire() {
    let mut list = KeyMappingEntries::new();
    list.push(entry(InputMapperMessage::KeyDown(Key::KeyS), &[Key::KeyControl, Key::KeyShift], document(DocumentMessage::ExportDocument)));
    list.push(entry(InputMapperMessage::KeyDown(Key::KeyS), &[Key::KeyControl], document(DocumentMessage::SaveDocument)));
    list.push(entry(InputMapperMessage::KeyDown(Key::KeyS), &[], document(DocumentMessage::Undo)));
    let all: ActionList = vec![vec![
        document_action(DocumentMessageDiscriminant::ExportDocument),
        document_action(DocumentMessageDiscriminant::SaveDocument),
        document_action(DocumentMessageDiscriminant::Undo),
    ]];
    assert_eq!(list.match_mapping(&held(&[Key::KeyControl, Key::KeyShift]), &all), Some(document(DocumentMessage::ExportDocument)));
    assert_eq!(list.match_mapping(&held(&[Key::KeyControl]), &all), Some(document(DocumentMessage::SaveDocument)));
    assert_eq!(list.match_mapping(&held(&[Key::KeyAlt]), &all), Some(document(DocumentMessage::Undo)));
    let some: ActionList = vec![vec![document_action(DocumentMessageDiscriminant::Undo)]];
    assert_eq!(list.match_mapping(&held(&[Key::KeyControl, Key::KeyShift]), &some), Some(document(DocumentMessage::Undo)));
    assert_eq!(list.match_mapping(&held(&[Key::KeyControl]), &Vec::new()), None);
    assert_eq!(KeyMappingEntries::default().match_mapping(&held(&[]), &all), None);
}

#[test]
fn sorting_puts_more_modifiers_first_and_keeps_ties_in_order() {
    let trigger = InputMapperMessage::MouseScroll;
    let mut list = KeyMappingEntries::new();
    list.push(entry(trigger, &[], document(DocumentMessage::Undo)));
    list.push(entry(trigger, &[Key::KeyShift], document(DocumentMessage::SaveDocument)));
    list.push(entry(trigger, &[Key::KeyShift, Key::KeyAlt], document(DocumentMessage::ExportDocument)));
    list.push(entry(trigger, &[Key::KeyControl], document(DocumentMessage::SelectAllLayers)));
    list.push(entry(trigger, &[], document(DocumentMessage::DeselectAllLayers)));
    let sorted = list.sorted_by_modifier_count();
    let order: Vec<Message> = sorted.0.iter().map(|entry| entry.action.clone()).collect();
    assert_eq!(
        order,
        vec![
            document(DocumentMessage::ExportDocument),
            document(DocumentMessage::SaveDocument),
            document(DocumentMessage::SelectAllLayers),
            document(DocumentMessage::Undo),
            document(DocumentMessage::DeselectAllLayers),
        ]
    );
    assert_eq!(list.0.len(), 5);
}

#[test]
fn binding_with_two_modifiers_wins_over_binding_with_none() {
    let trigger = InputMapperMessage::KeyDown(Key::KeyArrowUp);
    let declared = vec![
        entry(trigger, &[], document(DocumentMessage::NudgeSelectedLayers(0, -1))),
        entry(trigger, &[Key::KeyShift, Key::KeyArrowLeft], document(DocumentMessage::NudgeSelectedLayers(-10, -10))),
    ];
    let table = Mapping::from_bindings(&declared);
    let actions: ActionList = vec![vec![document_action(DocumentMessageDiscriminant::NudgeSelectedLayers)]];
    let live = held(&[Key::KeyArrowUp, Key::KeyShift, Key::KeyArrowLeft]);
    assert_eq!(table.match_message(trigger, &live, &actions), Some(document(DocumentMessage::NudgeSelectedLayers(-10, -10))));
    assert_eq!(table.match_message(trigger, &held(&[Key::KeyShift]), &actions), Some(document(DocumentMessage::NudgeSelectedLayers(0, -1))));
}

#[test]
fn bindings_with_equally_many_modifiers_are_tried_in_declaration_order() {
    let trigger = InputMapperMessage::KeyDown(Key::Lmb);
    let declared = vec![
        entry(trigger, &[], Message::Tool(ToolMessage::Select(SelectMessage::DragStart { add_to_selection: Key::KeyShift }))),
        entry(trigger, &[], rectangle(RectangleToolMessage::DragStart)),
        entry(trigger, &[], document(DocumentMessage::Undo)),
    ];
    let table = Mapping::from_bindings(&declared);
    let both: ActionList = vec![vec![document_action(DocumentMessageDiscriminant::Undo)], vec![rectangle_action(RectangleToolMessageDiscriminant::DragStart)]];
    assert_eq!(table.match_message(trigger, &held(&[]), &both), Some(rectangle(RectangleToolMessage::DragStart)));
}

#[test]
fn bindings_are_grouped_by_their_trigger() {
    let declared = vec![
        entry(InputMapperMessage::KeyDown(Key::KeyA), &[], document(DocumentMessage::Undo)),
        entry(InputMapperMessage::KeyUp(Key::KeyA), &[], document(DocumentMessage::SaveDocument)),
        entry(InputMapperMessage::PointerMove, &[], document(DocumentMessage::ExportDocument)),
        entry(InputMapperMessage::MouseScroll, &[], document(DocumentMessage::SelectAllLayers)),
    ];
    let table = Mapping::from_bindings(&declared);
    let actions: ActionList = vec![vec![
        document_action(DocumentMessageDiscriminant::Undo),
        document_action(DocumentMessageDiscriminant::SaveDocument),
        document_action(DocumentMessageDiscriminant::ExportDocument),
        document_action(DocumentMessageDiscriminant::SelectAllLayers),
    ]];
    let none = held(&[]);
    assert_eq!(table.match_message(InputMapperMessage::KeyDown(Key::KeyA), &none, &actions), Some(document(DocumentMessage::Undo)));
    assert_eq!(table.match_message(InputMapperMessage::KeyUp(Key::KeyA), &none, &actions), Some(document(DocumentMessage::SaveDocument)));
    assert_eq!(table.match_message(InputMapperMessage::PointerMove, &none, &actions), Some(document(DocumentMessage::ExportDocument)));
    assert_eq!(table.match_message(InputMapperMessage::MouseScroll, &none, &actions), Some(document(DocumentMessage::SelectAllLayers)));
    assert_eq!(table.match_message(InputMapperMessage::KeyDown(Key::KeyB), &none, &actions), None);
    assert_eq!(table.match_message(InputMapperMessage::KeyUp(Key::KeyB), &none, &actions), None);
}

#[test]
fn action_that_is_not_advertised_never_fires() {
    let table = Mapping::default();
    let trigger = InputMapperMessage::KeyDown(Key::KeyAlt);
    let drawing: ActionList = vec![vec![
        rectangle_action(RectangleToolMessageDiscriminant::DragStop),
        rectangle_action(RectangleToolMessageDiscriminant::Abort),
        rectangle_action(RectangleToolMessageDiscriminant::Resize),
    ]];
    let ready: ActionList = vec![vec![rectangle_action(RectangleToolMessageDiscriminant::DragStart)]];
    let live = held(&[Key::KeyAlt]);
    assert_eq!(
        table.match_message(trigger, &live, &drawing),
        Some(rectangle(RectangleToolMessage::Resize { center: Key::KeyAlt, lock_ratio: Key::KeyShift }))
    );
    assert_eq!(table.match_message(trigger, &live, &ready), None);
    assert_eq!(table.match_message(trigger, &live, &Vec::new()), None);
}

#[test]
fn dispatch_gives_the_same_answer_every_time() {
    let table = Mapping::default();
    let actions: ActionList = vec![vec![
        document_action(DocumentMessageDiscriminant::SaveDocument),
        rectangle_action(RectangleToolMessageDiscriminant::DragStart),
    ]];
    let live = held(&[Key::KeyControl, Key::KeyS]);
    let trigger = InputMapperMessage::KeyDown(Key::KeyS);
    let first = table.match_message(trigger, &live, &actions);
    for _ in 0..5 {
        assert_eq!(table.match_message(trigger, &live, &actions), first);
    }
    assert_eq!(first, Some(document(DocumentMessage::SaveDocument)));
}

#[test]
fn default_bindings_hold_what_is_declared() {
    let declared = default_bindings();
    assert_eq!(declared.len(), 132);
    assert_eq!(
        declared[0],
        entry(
            InputMapperMessage::KeyDown(Key::KeyV),
            &[Key::KeyControl],
            Message::Documents(DocumentsMessage::PasteLayers { path: vec![], insert_index: -1 })
        )
    );
    assert_eq!(declared[131], entry(InputMapperMessage::KeyDown(Key::Key3), &[], Message::Global(GlobalMessage::LogTrace)));
}

#[test]
fn default_table_prefers_the_binding_with_more_modifiers() {
    let table = Mapping::default();
    let actions: ActionList = vec![vec![
        document_action(DocumentMessageDiscriminant::DeselectAllLayers),
        document_action(DocumentMessageDiscriminant::SelectAllLayers),
        document_action(DocumentMessageDiscriminant::NudgeSelectedLayers),
        MessageDiscriminant::Movement(MovementMessageDiscriminant::SetCanvasZoom),
        MessageDiscriminant::Movement(MovementMessageDiscriminant::WheelCanvasTranslate),
        MessageDiscriminant::Global(GlobalMessageDiscriminant::LogInfo),
    ]];
    let key_a = InputMapperMessage::KeyDown(Key::KeyA);
    assert_eq!(table.match_message(key_a, &held(&[Key::KeyA, Key::KeyControl, Key::KeyAlt]), &actions), Some(document(DocumentMessage::DeselectAllLayers)));
    assert_eq!(table.match_message(key_a, &held(&[Key::KeyA, Key::KeyControl]), &actions), Some(document(DocumentMessage::SelectAllLayers)));
    assert_eq!(table.match_message(key_a, &held(&[Key::KeyA]), &actions), None);
    let up = InputMapperMessage::KeyDown(Key::KeyArrowUp);
    assert_eq!(table.match_message(up, &held(&[Key::KeyArrowUp, Key::KeyShift, Key::KeyArrowRight]), &actions), Some(document(DocumentMessage::NudgeSelectedLayers(10, -10))));
    assert_eq!(table.match_message(up, &held(&[Key::KeyArrowUp, Key::KeyShift]), &actions), Some(document(DocumentMessage::NudgeSelectedLayers(0, -10))));
    assert_eq!(table.match_message(up, &held(&[Key::KeyArrowUp, Key::KeyArrowLeft]), &actions), Some(document(DocumentMessage::NudgeSelectedLayers(-1, -1))));
    assert_eq!(table.match_message(up, &held(&[Key::KeyArrowUp]), &actions), Some(document(DocumentMessage::NudgeSelectedLayers(0, -1))));
    let one = InputMapperMessage::KeyDown(Key::Key1);
    assert_eq!(table.match_message(one, &held(&[Key::Key1, Key::KeyControl]), &actions), Some(Message::Movement(MovementMessage::SetCanvasZoom(100))));
    assert_eq!(table.match_message(one, &held(&[Key::Key1]), &actions), Some(Message::Global(GlobalMessage::LogInfo)));
    let scroll = InputMapperMessage::MouseScroll;
    assert_eq!(table.match_message(scroll, &held(&[Key::KeyShift]), &actions), Some(Message::Movement(MovementMessage::WheelCanvasTranslate { use_y_as_x: true })));
    assert_eq!(table.match_message(scroll, &held(&[]), &actions), Some(Message::Movement(MovementMessage::WheelCanvasTranslate { use_y_as_x: false })));
}

#[test]
fn process_action_sends_at_most_one_message() {
    let mut mapper = InputMapper::default();
    let mut responses: VecDeque<Message> = VecDeque::new();
    responses.push_back(document(DocumentMessage::Undo));
    let state = input(&[Key::Lmb]);
    let actions: ActionList = vec![vec![rectangle_action(RectangleToolMessageDiscriminant::DragStart)]];
    mapper.process_action(InputMapperMessage::KeyDown(Key::Lmb), (&state, actions.clone()), &mut responses);
    assert_eq!(responses, VecDeque::from(vec![document(DocumentMessage::Undo), rectangle(RectangleToolMessage::DragStart)]));
    mapper.process_action(InputMapperMessage::KeyUp(Key::Lmb), (&state, actions), &mut responses);
    assert_eq!(responses.len(), 2);
    mapper.process_action(InputMapperMessage::KeyDown(Key::Lmb), (&state, Vec::new()), &mut responses);
    assert_eq!(responses.len(), 2);
}

#[test]
fn mapper_with_its_own_table_dispatches_by_it() {
    let trigger = InputMapperMessage::PointerMove;
    let table = Mapping::from_bindings(&vec![entry(trigger, &[Key::KeyShift], document(DocumentMessage::Undo))]);
    let mut mapper = InputMapper::new(table);
    let mut responses: VecDeque<Message> = VecDeque::new();
    let actions: ActionList = vec![vec![document_action(DocumentMessageDiscriminant::Undo)]];
    mapper.process_action(trigger, (&input(&[]), actions.clone()), &mut responses);
    assert!(responses.is_empty());
    mapper.process_action(trigger, (&input(&[Key::KeyShift, Key::KeyA]), actions), &mut responses);
    assert_eq!(responses, VecDeque::from(vec![document(DocumentMessage::Undo)]));
}

#[test]
fn hidden_actions_are_the_tool_choice_and_the_global_ones() {
    assert!(is_hidden_from_hints(MessageDiscriminant::Tool(ToolMessageDiscriminant::SelectTool)));
    assert!(is_hidden_from_hints(MessageDiscriminant::Global(GlobalMessageDiscriminant::LogDebug)));
    assert!(!is_hidden_from_hints(MessageDiscriminant::Tool(ToolMessageDiscriminant::SwapColors)));
    assert!(!is_hidden_from_hints(rectangle_action(RectangleToolMessageDiscriminant::Resize)));
}

#[test]
fn hints_name_each_key_with_its_first_advertised_action() {
    let mapper = InputMapper::default();
    let drawing: ActionList = vec![
        vec![
            rectangle_action(RectangleToolMessageDiscriminant::DragStop),
            rectangle_action(RectangleToolMessageDiscriminant::Abort),
            rectangle_action(RectangleToolMessageDiscriminant::Resize),
        ],
        vec![MessageDiscriminant::Tool(ToolMessageDiscriminant::SelectTool), MessageDiscriminant::Global(GlobalMessageDiscriminant::LogInfo)],
    ];
    assert_eq!(mapper.hints(drawing), "Rmb: Abort, Shift: Resize, Alt: Resize, Escape: Abort, ");
    let ready: ActionList = vec![vec![rectangle_action(RectangleToolMessageDiscriminant::DragStart)]];
    assert_eq!(mapper.hints(ready), "Lmb: DragStart, ");
    assert_eq!(mapper.hints(Vec::new()), "");
}

#[test]
fn hints_show_one_entry_for_a_key_and_ignore_modifiers() {
    let down = InputMapperMessage::KeyDown(Key::KeyX);
    let table = Mapping::from_bindings(&vec![
        entry(down, &[], document(DocumentMessage::DeleteSelectedLayers)),
        entry(down, &[Key::KeyShift], Message::Tool(ToolMessage::SwapColors)),
        entry(InputMapperMessage::KeyUp(Key::KeyA), &[], document(DocumentMessage::Undo)),
        entry(InputMapperMessage::KeyDown(Key::KeyM), &[], Message::Tool(ToolMessage::SelectTool(ToolType::Rectangle))),
    ]);
    let mapper = InputMapper::new(table);
    let actions: ActionList = vec![vec![
        document_action(DocumentMessageDiscriminant::DeleteSelectedLayers),
        MessageDiscriminant::Tool(ToolMessageDiscriminant::SwapColors),
        MessageDiscriminant::Tool(ToolMessageDiscriminant::SelectTool),
        document_action(DocumentMessageDiscriminant::Undo),
    ]];
    assert_eq!(mapper.hints(actions), "X: SwapColors, ");
}
