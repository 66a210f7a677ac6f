use crate::hint::HintData;
use crate::hint::HintGroup;
use crate::hint::HintInfo;
use crate::hint::HintInfoView;
use crate::hint::KeysGroup;
use crate::hint::MouseCursorIcon;
use crate::hint::MouseMotion;
use crate::input_mapper::advertisement;
use crate::keyboard::Key;
use crate::message::ActionList;
use crate::message::DocumentMessage;
use crate::message::FrontendMessage;
use crate::message::FrontendMessageView;
use crate::message::Message;
use crate::message::MessageDiscriminant;
use crate::message::MessageView;
use crate::message::Operation;
use crate::message::OperationView;
use crate::message::ToolMessage;
use crate::message::ToolMessageDiscriminant;
use crate::message::ToolType;
use crate::message::message_views;
use crate::resize::Resize;
use crate::resize::ResizeView;
use crate::resize::spec_within_drag_threshold;
use crate::resize::within_drag_threshold;
use crate::style::Affine;
use crate::style::Fill;
use crate::style::PathStyle;
use crate::tool::Fsm;
use crate::tool::SignalToMessageMap;
use crate::tool::is_hint_or_cursor;
use crate::tool::process_action;
use crate::tool::responses_after;
use crate::tool::ToolActionHandlerData;
use crate::tool::ToolActionHandlerDataView;
use std::collections::VecDeque;
use vstd::prelude::*;
use vstd::string::*;

verus! {

/// Actions of the rectangle tool.
#[derive(Clone, Copy, Debug, PartialEq, Eq, Hash, Structural)]
pub enum RectangleToolMessage {
    /// Gives up what is being drawn.
    Abort,
    /// Starts a rectangle where the pointer is.
    DragStart,
    /// Ends the drag: the rectangle stays if the pointer has moved far enough.
    DragStop,
    /// Fits the rectangle to the pointer again. While `center` is held the drag starts at the centre; while `lock_ratio` is held the rectangle is a square.
    Resize { center: Key, lock_ratio: Key },
}

/// Which action of `RectangleToolMessage` a message is, without what the action carries.
#[derive(Clone, Copy, Debug, PartialEq, Eq, Hash, Structural)]
pub enum RectangleToolMessageDiscriminant {
    Abort,
    DragStart,
    DragStop,
    Resize,
}

impl RectangleToolMessageDiscriminant {
    /// The action's own name, without the names of the families it belongs to.
    pub open spec fn spec_name(self) -> Seq<char> {
        match self {
            RectangleToolMessageDiscriminant::Abort => "Abort"@,
            RectangleToolMessageDiscriminant::DragStart => "DragStart"@,
            RectangleToolMessageDiscriminant::DragStop => "DragStop"@,
            RectangleToolMessageDiscriminant::Resize => "Resize"@,
        }
    }

    /// The action's own name, without the names of the families it belongs to.
    pub fn name(self) -> (name: &'static str)
        ensures
            name@ == self.spec_name(),
    {
        match self {
            RectangleToolMessageDiscriminant::Abort => "Abort",
            RectangleToolMessageDiscriminant::DragStart => "DragStart",
            RectangleToolMessageDiscriminant::DragStop => "DragStop",
            RectangleToolMessageDiscriminant::Resize => "Resize",
        }
    }
}

impl RectangleToolMessage {
    /// Which action this is, without what it carries.
    pub open spec fn spec_to_discriminant(self) -> RectangleToolMessageDiscriminant {
        match self {
            RectangleToolMessage::Abort => RectangleToolMessageDiscriminant::Abort,
            RectangleToolMessage::DragStart => RectangleToolMessageDiscriminant::DragStart,
            RectangleToolMessage::DragStop => RectangleToolMessageDiscriminant::DragStop,
            RectangleToolMessage::Resize { .. } => RectangleToolMessageDiscriminant::Resize,
        }
    }

    /// Which action this is, without what it carries.
    pub fn to_discriminant(&self) -> (discriminant: RectangleToolMessageDiscriminant)
        ensures
            discriminant == self.spec_to_discriminant(),
    {
        match self {
            RectangleToolMessage::Abort => RectangleToolMessageDiscriminant::Abort,
            RectangleToolMessage::DragStart => RectangleToolMessageDiscriminant::DragStart,
            RectangleToolMessage::DragStop => RectangleToolMessageDiscriminant::DragStop,
            RectangleToolMessage::Resize { .. } => RectangleToolMessageDiscriminant::Resize,
        }
    }
}

/// Adds `message` at the end of `responses`.
fn send(responses: &mut VecDeque<Message>, message: Message)
    ensures
        message_views(final(responses)@) == message_views(old(responses)@).push(message@),
{
    responses.push_back(message);
    assert(message_views(responses@) =~= message_views(old(responses)@).push(message@));
}

/// What one hint says: the key of the input, if it has one, what the pointer
/// does in it, what it is for, and whether it adds to the hint before it.
pub open spec fn hint_info_view(
    key: Option<Key>,
    mouse: Option<MouseMotion>,
    label: Seq<char>,
    plus: bool,
) -> HintInfoView {
    HintInfoView {
        key_groups: match key {
            Some(key) => seq![seq![key]],
            None => Seq::<Seq<Key>>::empty(),
        },
        mouse,
        label,
        plus,
    }
}

/// The hint for an input of at most one key.
fn hint_info(key: Option<Key>, mouse: Option<MouseMotion>, label: &str, plus: bool) -> (info:
    HintInfo)
    ensures
        info@ == hint_info_view(key, mouse, label@, plus),
{
    let mut key_groups: Vec<KeysGroup> = Vec::new();
    match key {
        Some(key) => {
            let mut keys: Vec<Key> = Vec::new();
            keys.push(key);
            assert(keys@ =~= seq![key]);
            key_groups.push(KeysGroup(keys));
        },
        None => {},
    }
    let info = HintInfo { key_groups, mouse, label: String::from_str(label), plus };
    assert(info@.key_groups =~= hint_info_view(key, mouse, label@, plus).key_groups);
    info
}

/// The states of the rectangle tool: waiting for a drag, or in one.
#[derive(Clone, Copy, Debug, PartialEq, Eq, Hash, Structural)]
pub enum RectangleToolFsmState {
    Ready,
    Drawing,
}

impl Default for RectangleToolFsmState {
    fn default() -> (state: RectangleToolFsmState)
        ensures
            state == RectangleToolFsmState::Ready,
    {
        RectangleToolFsmState::Ready
    }
}

/// What the rectangle tool keeps from one action of a drag to the next.
#[derive(Debug, PartialEq, Eq)]
pub struct RectangleToolData {
    pub data: Resize,
}

impl View for RectangleToolData {
    type V = ResizeView;

    open spec fn view(&self) -> ResizeView {
        self.data@
    }
}

impl Default for RectangleToolData {
    fn default() -> (data: RectangleToolData)
        ensures
            data@.path.is_none(),
    {
        RectangleToolData { data: Resize::new() }
    }
}

impl RectangleToolFsmState {
    /// What the tool keeps after `event`: the start of the drag and the new
    /// layer once a drag starts, and no layer once it ends.
    pub open spec fn next_data(
        self,
        event: ToolMessage,
        data: ResizeView,
        context: ToolActionHandlerDataView,
    ) -> ResizeView {
        match (self, event) {
            (RectangleToolFsmState::Ready, ToolMessage::Rectangle(RectangleToolMessage::DragStart)) => ResizeView {
                drag_start: context.input.mouse.position,
                path: Some(context.new_layer_path),
            },
            (RectangleToolFsmState::Drawing, ToolMessage::Rectangle(RectangleToolMessage::DragStop)) => ResizeView {
                drag_start: data.drag_start,
                path: None,
            },
            (RectangleToolFsmState::Drawing, ToolMessage::Rectangle(RectangleToolMessage::Abort)) => ResizeView {
                drag_start: data.drag_start,
                path: None,
            },
            _ => data,
        }
    }

    /// The inputs that the tool listens to in this state.
    pub open spec fn hint_data(self) -> Seq<Seq<HintInfoView>> {
        match self {
            RectangleToolFsmState::Ready => seq![
                seq![
                    hint_info_view(None, Some(MouseMotion::LmbDrag), "Draw Rectangle"@, false),
                    hint_info_view(Some(Key::KeyShift), None, "Constrain Square"@, true),
                    hint_info_view(Some(Key::KeyAlt), None, "From Center"@, true),
                ],
            ],
            RectangleToolFsmState::Drawing => seq![
                seq![
                    hint_info_view(Some(Key::KeyShift), None, "Constrain Square"@, false),
                    hint_info_view(Some(Key::KeyAlt), None, "From Center"@, false),
                ],
            ],
        }
    }

    /// The actions that may be dispatched to the tool in this state.
    pub open spec fn advertised_actions(self) -> Seq<MessageDiscriminant> {
        match self {
            RectangleToolFsmState::Ready => seq![
                MessageDiscriminant::Tool(
                    ToolMessageDiscriminant::Rectangle(RectangleToolMessageDiscriminant::DragStart),
                ),
            ],
            RectangleToolFsmState::Drawing => seq![
                MessageDiscriminant::Tool(
                    ToolMessageDiscriminant::Rectangle(RectangleToolMessageDiscriminant::DragStop),
                ),
                MessageDiscriminant::Tool(
                    ToolMessageDiscriminant::Rectangle(RectangleToolMessageDiscriminant::Abort),
                ),
                MessageDiscriminant::Tool(
                    ToolMessageDiscriminant::Rectangle(RectangleToolMessageDiscriminant::Resize),
                ),
            ],
        }
    }
}

impl Fsm for RectangleToolFsmState {
    type ToolData = RectangleToolData;

    /// Whether the tool does anything on `event` in this state. On every other
    /// event it stays as it is.
    open spec fn handles(self, event: ToolMessage) -> bool {
        match (self, event) {
            (RectangleToolFsmState::Ready, ToolMessage::Rectangle(RectangleToolMessage::DragStart)) => true,
            (_, ToolMessage::Rectangle(RectangleToolMessage::Resize { .. })) => true,
            (RectangleToolFsmState::Drawing, ToolMessage::Rectangle(RectangleToolMessage::DragStop)) => true,
            (RectangleToolFsmState::Drawing, ToolMessage::Rectangle(RectangleToolMessage::Abort)) => true,
            _ => false,
        }
    }

    /// The state after `event`: a drag starts from `Ready` and ends, kept or
    /// given up, in `Ready`.
    open spec fn next_state(self, event: ToolMessage) -> RectangleToolFsmState {
        match (self, event) {
            (RectangleToolFsmState::Ready, ToolMessage::Rectangle(RectangleToolMessage::DragStart)) => RectangleToolFsmState::Drawing,
            (RectangleToolFsmState::Drawing, ToolMessage::Rectangle(RectangleToolMessage::DragStop)) => RectangleToolFsmState::Ready,
            (RectangleToolFsmState::Drawing, ToolMessage::Rectangle(RectangleToolMessage::Abort)) => RectangleToolFsmState::Ready,
            _ => self,
        }
    }

    /// Whether `after` is what the tool keeps after `event`: the start of the
    /// drag and the new layer once a drag starts, and no layer once it ends.
    open spec fn keeps(
        self,
        event: ToolMessage,
        before: &RectangleToolData,
        context: ToolActionHandlerDataView,
        after: &RectangleToolData,
    ) -> bool {
        after@ == self.next_data(event, before@, context)
    }

    /// The messages that `event` sends, in their order.
    open spec fn effects(
        self,
        event: ToolMessage,
        data: &RectangleToolData,
        context: ToolActionHandlerDataView,
    ) -> Seq<MessageView> {
        match (self, event) {
            (RectangleToolFsmState::Ready, ToolMessage::Rectangle(RectangleToolMessage::DragStart)) => seq![
                MessageView::Document(DocumentMessage::StartTransaction),
                MessageView::Document(DocumentMessage::DeselectAllLayers),
                MessageView::Operation(
                    OperationView::AddRect {
                        path: context.new_layer_path,
                        insert_index: -1isize,
                        transform: Affine::spec_zero(),
                        style: PathStyle {
                            stroke: None,
                            fill: Fill::Solid(context.global_tool_data.primary_color),
                        },
                    },
                ),
            ],
            (_, ToolMessage::Rectangle(RectangleToolMessage::Resize { center, lock_ratio })) => match data@.transform_message(
                center,
                lock_ratio,
                context.input,
            ) {
                Some(message) => seq![message],
                None => Seq::<MessageView>::empty(),
            },
            (RectangleToolFsmState::Drawing, ToolMessage::Rectangle(RectangleToolMessage::DragStop)) => if spec_within_drag_threshold(
                data@.drag_start,
                context.input.mouse.position,
            ) {
                seq![MessageView::Document(DocumentMessage::AbortTransaction)]
            } else {
                seq![MessageView::Document(DocumentMessage::CommitTransaction)]
            },
            (RectangleToolFsmState::Drawing, ToolMessage::Rectangle(RectangleToolMessage::Abort)) => seq![
                MessageView::Document(DocumentMessage::AbortTransaction),
            ],
            _ => Seq::<MessageView>::empty(),
        }
    }

    /// The message that tells the front end the hints of this state.
    open spec fn hints_message(self) -> MessageView {
        MessageView::Frontend(FrontendMessageView::UpdateInputHints { hint_data: self.hint_data() })
    }

    /// The message that asks the front end for the cursor of this state.
    open spec fn cursor_message(self) -> MessageView {
        MessageView::Frontend(
            FrontendMessageView::UpdateMouseCursor { cursor: MouseCursorIcon::Crosshair },
        )
    }

    /// Applies `event` to the tool in this state and gives the state that
    /// follows. What the event does to the document is sent as messages to
    /// `responses`. An event that the state does not handle changes nothing
    /// and sends nothing.
    fn transition(
        self,
        event: ToolMessage,
        tool_data: &mut RectangleToolData,
        data: &ToolActionHandlerData,
        responses: &mut VecDeque<Message>,
    ) -> (next: RectangleToolFsmState)
    {
        let ghost before = message_views(responses@);
        let ghost effects = self.effects(event, &*tool_data, data@);
        match event {
            ToolMessage::Rectangle(event) => match (self, event) {
                (RectangleToolFsmState::Ready, RectangleToolMessage::DragStart) => {
                    tool_data.data.start(data.input.mouse.position);
                    send(responses, Message::Document(DocumentMessage::StartTransaction));
                    tool_data.data.path = Some(data.new_layer_path.clone());
                    send(responses, Message::Document(DocumentMessage::DeselectAllLayers));
                    send(
                        responses,
                        Message::Operation(
                            Operation::AddRect {
                                path: data.new_layer_path.clone(),
                                insert_index: -1,
                                transform: Affine::zero(),
                                style: PathStyle::new(
                                    None,
                                    Fill::solid(data.global_tool_data.primary_color),
                                ),
                            },
                        ),
                    );
                    assert(message_views(responses@) =~= before + effects);
                    RectangleToolFsmState::Drawing
                },
                (state, RectangleToolMessage::Resize { center, lock_ratio }) => {
                    if let Some(message) = tool_data.data.calculate_transform(
                        center,
                        lock_ratio,
                        &data.input,
                    ) {
                        send(responses, message);
                    }
                    assert(message_views(responses@) =~= before + effects);
                    state
                },
                (RectangleToolFsmState::Drawing, RectangleToolMessage::DragStop) => {
                    if within_drag_threshold(tool_data.data.drag_start, data.input.mouse.position) {
                        send(responses, Message::Document(DocumentMessage::AbortTransaction));
                    } else {
                        send(responses, Message::Document(DocumentMessage::CommitTransaction));
                    }
                    tool_data.data.cleanup();
                    assert(message_views(responses@) =~= before + effects);
                    RectangleToolFsmState::Ready
                },
                (RectangleToolFsmState::Drawing, RectangleToolMessage::Abort) => {
                    send(responses, Message::Document(DocumentMessage::AbortTransaction));
                    tool_data.data.cleanup();
                    assert(message_views(responses@) =~= before + effects);
                    RectangleToolFsmState::Ready
                },
                _ => {
                    assert(message_views(responses@) =~= before + effects);
                    self
                },
            },
            _ => {
                assert(message_views(responses@) =~= before + effects);
                self
            },
        }
    }

    /// Tells the front end which inputs the tool listens to in this state.
    fn update_hints(&self, responses: &mut VecDeque<Message>)
    {
        let mut infos: Vec<HintInfo> = Vec::new();
        match self {
            RectangleToolFsmState::Ready => {
                infos.push(hint_info(None, Some(MouseMotion::LmbDrag), "Draw Rectangle", false));
                infos.push(hint_info(Some(Key::KeyShift), None, "Constrain Square", true));
                infos.push(hint_info(Some(Key::KeyAlt), None, "From Center", true));
            },
            RectangleToolFsmState::Drawing => {
                infos.push(hint_info(Some(Key::KeyShift), None, "Constrain Square", false));
                infos.push(hint_info(Some(Key::KeyAlt), None, "From Center", false));
            },
        }
        let group = HintGroup(infos);
        assert(group@ =~= self.hint_data()[0]);
        let mut groups: Vec<HintGroup> = Vec::new();
        groups.push(group);
        let hint_data = HintData(groups);
        assert(hint_data@ =~= self.hint_data());
        send(responses, Message::Frontend(FrontendMessage::UpdateInputHints { hint_data }));
    }

    /// Asks the front end for the cursor of the tool: a crosshair.
    fn update_cursor(&self, responses: &mut VecDeque<Message>)
    {
        send(
            responses,
            Message::Frontend(
                FrontendMessage::UpdateMouseCursor { cursor: MouseCursorIcon::Crosshair },
            ),
        );
    }

    fn same_state(&self, other: &RectangleToolFsmState) -> (same: bool) {
        *self == *other
    }
}

/// The tool that draws rectangles by dragging.
#[derive(Debug, PartialEq, Eq)]
pub struct RectangleTool {
    fsm_state: RectangleToolFsmState,
    tool_data: RectangleToolData,
}

impl Default for RectangleTool {
    fn default() -> (tool: RectangleTool)
        ensures
            tool.state() == RectangleToolFsmState::Ready,
            tool.data()@.path.is_none(),
    {
        RectangleTool {
            fsm_state: RectangleToolFsmState::Ready,
            tool_data: RectangleToolData { data: Resize::new() },
        }
    }
}

impl RectangleTool {
    /// The state that the tool is in.
    pub closed spec fn state(&self) -> RectangleToolFsmState {
        self.fsm_state
    }

    /// What the tool keeps of the drag.
    pub closed spec fn data(&self) -> RectangleToolData {
        self.tool_data
    }

    /// The state that the tool is in.
    pub fn fsm_state(&self) -> (state: RectangleToolFsmState)
        ensures
            state == self.state(),
    {
        self.fsm_state
    }

    /// What the tool keeps of the drag.
    pub fn tool_data(&self) -> (data: &RectangleToolData)
        ensures
            *data == self.data(),
    {
        &self.tool_data
    }

    /// The state of the tool after an action: as before where the action asks
    /// for the hints or the cursor, else as the transition says.
    pub open spec fn state_after(&self, action: ToolMessage) -> RectangleToolFsmState {
        match action {
            ToolMessage::UpdateHints => self.state(),
            ToolMessage::UpdateCursor => self.state(),
            _ => self.state().next_state(action),
        }
    }

    /// What the tool keeps after an action: as before where the action asks
    /// for the hints or the cursor, else as the transition says.
    pub open spec fn data_after(
        &self,
        action: ToolMessage,
        context: ToolActionHandlerDataView,
    ) -> ResizeView {
        match action {
            ToolMessage::UpdateHints => self.data()@,
            ToolMessage::UpdateCursor => self.data()@,
            _ => self.state().next_data(action, self.data()@, context),
        }
    }

    /// The messages that an action puts behind those of `before`. The two
    /// requests to say the hints or the cursor again send just that. Every
    /// other action sends what the transition sends, and behind it the hints
    /// and the cursor of the new state, if and only if the state has changed.
    pub open spec fn responses_after(
        &self,
        action: ToolMessage,
        context: ToolActionHandlerDataView,
        before: Seq<MessageView>,
    ) -> Seq<MessageView> {
        responses_after(self.state(), &self.data(), action, context, before)
    }

    /// Applies one action to the tool. A request to say the hints or the
    /// cursor again does that and leaves the tool as it is. Every other action
    /// goes through the transition of the state; the hints and the cursor are
    /// sent again behind its messages exactly when the state has changed.
    pub fn process_action(
        &mut self,
        action: ToolMessage,
        data: &ToolActionHandlerData,
        responses: &mut VecDeque<Message>,
    )
        ensures
            message_views(final(responses)@) == old(self).responses_after(
                action,
                data@,
                message_views(old(responses)@),
            ),
            final(self).state() == old(self).state_after(action),
            final(self).data()@ == old(self).data_after(action, data@),
    {
        process_action(&mut self.fsm_state, &mut self.tool_data, action, data, responses);
    }

    /// The actions that may be dispatched to the tool now: the start of a drag
    /// while it waits, and the end of the drag, giving it up and resizing while
    /// it draws.
    pub fn actions(&self) -> (actions: ActionList)
        ensures
            actions@.len() == 1,
            actions@[0]@ == self.state().advertised_actions(),
            advertisement(actions@) == self.state().advertised_actions().to_set(),
    {
        let mut group: Vec<MessageDiscriminant> = Vec::new();
        match self.fsm_state {
            RectangleToolFsmState::Ready => {
                group.push(
                    MessageDiscriminant::Tool(
                        ToolMessageDiscriminant::Rectangle(
                            RectangleToolMessageDiscriminant::DragStart,
                        ),
                    ),
                );
            },
            RectangleToolFsmState::Drawing => {
                group.push(
                    MessageDiscriminant::Tool(
                        ToolMessageDiscriminant::Rectangle(
                            RectangleToolMessageDiscriminant::DragStop,
                        ),
                    ),
                );
                group.push(
                    MessageDiscriminant::Tool(
                        ToolMessageDiscriminant::Rectangle(RectangleToolMessageDiscriminant::Abort),
                    ),
                );
                group.push(
                    MessageDiscriminant::Tool(
                        ToolMessageDiscriminant::Rectangle(
                            RectangleToolMessageDiscriminant::Resize,
                        ),
                    ),
                );
            },
        }
        assert(group@ =~= self.state().advertised_actions());
        let mut actions: Vec<Vec<MessageDiscriminant>> = Vec::new();
        actions.push(group);
        proof {
            let listed = self.state().advertised_actions();
            assert forall|discriminant: MessageDiscriminant|
                advertisement(actions@).contains(discriminant) == listed.to_set().contains(
                    discriminant,
                ) by {
                if listed.contains(discriminant) {
                    let place = choose|place: int|
                        0 <= place < listed.len() && listed[place] == discriminant;
                    assert(actions@[0]@[place] == discriminant);
                }
            }
            assert(advertisement(actions@) =~= listed.to_set());
        }
        actions
    }

    /// The name of the tool's icon.
    pub fn icon_name(&self) -> (name: String)
        ensures
            name@ == "VectorRectangleTool"@,
    {
        String::from_str("VectorRectangleTool")
    }

    /// What the tool is called where the pointer rests on it.
    pub fn tooltip(&self) -> (tip: String)
        ensures
            tip@ == "Rectangle Tool (M)"@,
    {
        String::from_str("Rectangle Tool (M)")
    }

    /// Which of the editor's tools this is.
    pub fn tool_type(&self) -> (tool: ToolType)
        ensures
            tool == ToolType::Rectangle,
    {
        ToolType::Rectangle
    }

    /// The messages by which the tool hears of what happens around it: it is
    /// told to give up what it draws when the tools are told to abort.
    pub fn signal_to_message_map(&self) -> (map: SignalToMessageMap)
        ensures
            map == (SignalToMessageMap {
                document_dirty: None,
                tool_abort: Some(ToolMessage::Rectangle(RectangleToolMessage::Abort)),
                selection_changed: None,
            }),
    {
        SignalToMessageMap {
            document_dirty: None,
            tool_abort: Some(ToolMessage::Rectangle(RectangleToolMessage::Abort)),
            selection_changed: None,
        }
    }
}

/// What a transition of the rectangle tool sends is never the hints or the
/// cursor: those come from the driver alone, and only when the state changes.
pub proof fn lemma_transition_sends_no_hints(
    state: RectangleToolFsmState,
    event: ToolMessage,
    data: RectangleToolData,
    context: ToolActionHandlerDataView,
)
    ensures
        forall|index: int|
            0 <= index < state.effects(event, &data, context).len() ==> !is_hint_or_cursor(
                #[trigger] state.effects(event, &data, context)[index],
            ),
{
}

/// An event that the state does not handle leaves the state and what the tool
/// keeps as they are, and sends nothing.
pub proof fn lemma_unhandled_changes_nothing(
    state: RectangleToolFsmState,
    event: ToolMessage,
    data: RectangleToolData,
    context: ToolActionHandlerDataView,
)
    requires
        !state.handles(event),
    ensures
        state.next_state(event) == state,
        state.next_data(event, data@, context) == data@,
        state.effects(event, &data, context) == Seq::<MessageView>::empty(),
{
}

/// The tool keeps a layer exactly while it draws: a drag that starts takes the
/// new layer, and a drag that ends, kept or given up, lets it go.
pub proof fn lemma_layer_is_kept_while_drawing(
    tool: RectangleTool,
    action: ToolMessage,
    context: ToolActionHandlerDataView,
)
    requires
        (tool.state() == RectangleToolFsmState::Ready) == tool.data()@.path.is_none(),
    ensures
        (tool.state_after(action) == RectangleToolFsmState::Ready) == tool.data_after(
            action,
            context,
        ).path.is_none(),
{
}

/// The tool handles an action only where the action is advertised, but for
/// resizing, which it also takes, without effect, while it waits.
pub proof fn lemma_handled_actions_are_advertised(
    state: RectangleToolFsmState,
    event: ToolMessage,
)
    requires
        state.handles(event),
        !(state == RectangleToolFsmState::Ready && event is Rectangle
            && event->Rectangle_0 is Resize),
    ensures
        state.advertised_actions().contains(
            MessageDiscriminant::Tool(event.spec_to_discriminant()),
        ),
{
    let discriminant = MessageDiscriminant::Tool(event.spec_to_discriminant());
    let listed = state.advertised_actions();
    match state {
        RectangleToolFsmState::Ready => {
            assert(listed[0] == discriminant);
        },
        RectangleToolFsmState::Drawing => {
            assert(listed[0] == discriminant || listed[1] == discriminant || listed[2]
                == discriminant);
        },
    }
}

} // verus!
