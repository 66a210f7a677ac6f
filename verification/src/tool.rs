use crate::input_preprocessor::InputPreprocessor;
use crate::message::FrontendMessageView;
use crate::message::LayerId;
use crate::message::Message;
use crate::message::MessageView;
use crate::message::message_views;
use crate::message::ToolMessage;
use crate::style::Color;
use std::collections::VecDeque;
use vstd::prelude::*;

verus! {

/// What all tools of a document share: the two colours that are chosen.
#[derive(Clone, Copy, Debug, PartialEq, Eq, Structural)]
pub struct DocumentToolData {
    pub primary_color: Color,
    pub secondary_color: Color,
}

/// What a tool may read while it handles one action: the path that the
/// document gives to the next new layer, the colours, and the input state.
#[derive(Debug, PartialEq, Eq)]
pub struct ToolActionHandlerData {
    pub new_layer_path: Vec<LayerId>,
    pub global_tool_data: DocumentToolData,
    pub input: InputPreprocessor,
}

/// What a `ToolActionHandlerData` says.
pub struct ToolActionHandlerDataView {
    pub new_layer_path: Seq<LayerId>,
    pub global_tool_data: DocumentToolData,
    pub input: InputPreprocessor,
}

impl View for ToolActionHandlerData {
    type V = ToolActionHandlerDataView;

    open spec fn view(&self) -> ToolActionHandlerDataView {
        ToolActionHandlerDataView {
            new_layer_path: self.new_layer_path@,
            global_tool_data: self.global_tool_data,
            input: self.input,
        }
    }
}

/// The messages by which a tool wants to hear of what happens around it; none
/// where it does not want to hear of it.
#[derive(Clone, Copy, Debug, PartialEq, Eq, Structural)]
pub struct SignalToMessageMap {
    pub document_dirty: Option<ToolMessage>,
    pub tool_abort: Option<ToolMessage>,
    pub selection_changed: Option<ToolMessage>,
}

/// What every tool's state machine offers: the states are the values of the
/// type, and the methods say what an event does in a state, which inputs the
/// state listens to, and which cursor it wants.
pub trait Fsm: Sized + Copy {
    /// What the tool keeps from one event of a gesture to the next.
    type ToolData;

    /// Whether the state does anything on `event`.
    spec fn handles(self, event: ToolMessage) -> bool;

    /// The state after `event`.
    spec fn next_state(self, event: ToolMessage) -> Self;

    /// Whether `after` is what the tool keeps after `event`, where it kept
    /// `before`.
    spec fn keeps(
        self,
        event: ToolMessage,
        before: &Self::ToolData,
        context: ToolActionHandlerDataView,
        after: &Self::ToolData,
    ) -> bool;

    /// The messages that `event` sends, in their order.
    spec fn effects(
        self,
        event: ToolMessage,
        data: &Self::ToolData,
        context: ToolActionHandlerDataView,
    ) -> Seq<MessageView>;

    /// The message that tells the front end the hints of this state.
    spec fn hints_message(self) -> MessageView;

    /// The message that asks the front end for the cursor of this state.
    spec fn cursor_message(self) -> MessageView;

    /// Applies `event` to the tool in this state and gives the state that
    /// follows. What the event does to the document is sent as messages to
    /// `responses`. An event that the state does not handle changes nothing
    /// and sends nothing.
    fn transition(
        self,
        event: ToolMessage,
        tool_data: &mut Self::ToolData,
        data: &ToolActionHandlerData,
        responses: &mut VecDeque<Message>,
    ) -> (next: Self)
        ensures
            next == self.next_state(event),
            self.keeps(event, &*old(tool_data), data@, &*final(tool_data)),
            message_views(final(responses)@) == message_views(old(responses)@) + self.effects(
                event,
                &*old(tool_data),
                data@,
            ),
            !self.handles(event) ==> next == self && *final(tool_data) == *old(tool_data)
                && message_views(final(responses)@) == message_views(old(responses)@),
    ;

    /// Tells the front end which inputs the tool listens to in this state.
    fn update_hints(&self, responses: &mut VecDeque<Message>)
        ensures
            message_views(final(responses)@) == message_views(old(responses)@).push(
                self.hints_message(),
            ),
    ;

    /// Asks the front end for the cursor of this state.
    fn update_cursor(&self, responses: &mut VecDeque<Message>)
        ensures
            message_views(final(responses)@) == message_views(old(responses)@).push(
                self.cursor_message(),
            ),
    ;

    /// Whether `other` is this state.
    fn same_state(&self, other: &Self) -> (same: bool)
        ensures
            same == (*self == *other),
    ;
}

/// The messages that an action puts behind those of `before`, for a tool in
/// state `state` that keeps `data`. The two requests to say the hints or the
/// cursor again send just that. Every other action sends what the transition
/// sends, and behind it the hints and the cursor of the new state, if and
/// only if the state has changed.
pub open spec fn responses_after<S: Fsm>(
    state: S,
    data: &S::ToolData,
    action: ToolMessage,
    context: ToolActionHandlerDataView,
    before: Seq<MessageView>,
) -> Seq<MessageView> {
    match action {
        ToolMessage::UpdateHints => before.push(state.hints_message()),
        ToolMessage::UpdateCursor => before.push(state.cursor_message()),
        _ => {
            let next = state.next_state(action);
            let sent = before + state.effects(action, data, context);
            if next != state {
                sent.push(next.hints_message()).push(next.cursor_message())
            } else {
                sent
            }
        },
    }
}

/// Applies one action to a tool. A request to say the hints or the cursor
/// again does that and leaves the tool as it is. Every other action goes
/// through the transition of the state; the hints and the cursor are sent
/// again behind its messages exactly when the state has changed.
pub fn process_action<S: Fsm>(
    fsm_state: &mut S,
    tool_data: &mut S::ToolData,
    action: ToolMessage,
    data: &ToolActionHandlerData,
    responses: &mut VecDeque<Message>,
)
    ensures
        message_views(final(responses)@) == responses_after(
            *old(fsm_state),
            &*old(tool_data),
            action,
            data@,
            message_views(old(responses)@),
        ),
        match action {
            ToolMessage::UpdateHints => *final(fsm_state) == *old(fsm_state) && *final(tool_data)
                == *old(tool_data),
            ToolMessage::UpdateCursor => *final(fsm_state) == *old(fsm_state) && *final(tool_data)
                == *old(tool_data),
            _ => *final(fsm_state) == old(fsm_state).next_state(action) && old(fsm_state).keeps(
                action,
                &*old(tool_data),
                data@,
                &*final(tool_data),
            ),
        },
{
    if matches!(action, ToolMessage::UpdateHints) {
        fsm_state.update_hints(responses);
        return ;
    }
    if matches!(action, ToolMessage::UpdateCursor) {
        fsm_state.update_cursor(responses);
        return ;
    }
    let new_state = fsm_state.transition(action, tool_data, data, responses);
    if !fsm_state.same_state(&new_state) {
        *fsm_state = new_state;
        fsm_state.update_hints(responses);
        fsm_state.update_cursor(responses);
    }
}

/// Whether `message` tells the front end the hints or asks it for a cursor.
pub open spec fn is_hint_or_cursor(message: MessageView) -> bool {
    match message {
        MessageView::Frontend(FrontendMessageView::UpdateInputHints { .. }) => true,
        MessageView::Frontend(FrontendMessageView::UpdateMouseCursor { .. }) => true,
        _ => false,
    }
}

/// An action that leaves the state as it is sends what the transition sends
/// and nothing else. An action that changes the state sends the hints of the
/// new state once and its cursor once, behind everything that the transition
/// sends.
pub proof fn lemma_hints_follow_state_change<S: Fsm>(
    state: S,
    data: &S::ToolData,
    action: ToolMessage,
    context: ToolActionHandlerDataView,
    before: Seq<MessageView>,
)
    requires
        action != ToolMessage::UpdateHints,
        action != ToolMessage::UpdateCursor,
    ensures
        ({
            let next = state.next_state(action);
            let sent = state.effects(action, data, context);
            let after = responses_after(state, data, action, context, before);
            &&& next == state ==> after == before + sent
            &&& next != state ==> after == (before + sent).push(next.hints_message()).push(
                next.cursor_message(),
            )
        }),
{
}

} // verus!
