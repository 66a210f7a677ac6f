use crate::hint::HintData;
use crate::hint::HintInfoView;
use crate::hint::MouseCursorIcon;
use crate::keyboard::Key;
use crate::rectangle_tool::RectangleToolMessage;
use crate::rectangle_tool::RectangleToolMessageDiscriminant;
use crate::style::Affine;
use crate::style::PathStyle;
use vstd::prelude::*;

verus! {

/// The number by which a folder knows one of its layers.
pub type LayerId = u64;

/// What the front end and the tools advertise: groups of actions, one group
/// from each handler that is active now.
pub type ActionList = Vec<Vec<MessageDiscriminant>>;

/// The tools of the editor.
#[derive(Clone, Copy, Debug, PartialEq, Eq, Hash, Structural)]
pub enum ToolType {
    Select,
    Eyedropper,
    Fill,
    Pen,
    Line,
    Rectangle,
    Ellipse,
    Shape,
}

/// Actions that move, turn or zoom the canvas.
#[derive(Clone, Copy, Debug, PartialEq, Eq, Hash, Structural)]
pub enum MovementMessage {
    DecreaseCanvasZoom,
    DisableSnapping,
    EnableSnapping,
    IncreaseCanvasZoom,
    MouseMove,
    RotateCanvasBegin { snap: bool },
    /// The zoom to set, in percent.
    SetCanvasZoom(u32),
    TranslateCanvasBegin,
    /// The distance to move, in whole viewports along each axis.
    TranslateCanvasByViewportFraction(i32, i32),
    TranslateCanvasEnd,
    WheelCanvasTranslate { use_y_as_x: bool },
    WheelCanvasZoom,
    ZoomCanvasBegin,
    ZoomCanvasToFitAll,
}

/// Which action of `MovementMessage` a message is, without what the action carries.
#[derive(Clone, Copy, Debug, PartialEq, Eq, Hash, Structural)]
pub enum MovementMessageDiscriminant {
    DecreaseCanvasZoom,
    DisableSnapping,
    EnableSnapping,
    IncreaseCanvasZoom,
    MouseMove,
    RotateCanvasBegin,
    SetCanvasZoom,
    TranslateCanvasBegin,
    TranslateCanvasByViewportFraction,
    TranslateCanvasEnd,
    WheelCanvasTranslate,
    WheelCanvasZoom,
    ZoomCanvasBegin,
    ZoomCanvasToFitAll,
}

impl MovementMessageDiscriminant {
    /// The action's own name, without the names of the families it belongs to.
    pub open spec fn spec_name(self) -> Seq<char> {
        match self {
            MovementMessageDiscriminant::DecreaseCanvasZoom => "DecreaseCanvasZoom"@,
            MovementMessageDiscriminant::DisableSnapping => "DisableSnapping"@,
            MovementMessageDiscriminant::EnableSnapping => "EnableSnapping"@,
            MovementMessageDiscriminant::IncreaseCanvasZoom => "IncreaseCanvasZoom"@,
            MovementMessageDiscriminant::MouseMove => "MouseMove"@,
            MovementMessageDiscriminant::RotateCanvasBegin => "RotateCanvasBegin"@,
            MovementMessageDiscriminant::SetCanvasZoom => "SetCanvasZoom"@,
            MovementMessageDiscriminant::TranslateCanvasBegin => "TranslateCanvasBegin"@,
            MovementMessageDiscriminant::TranslateCanvasByViewportFraction => "TranslateCanvasByViewportFraction"@,
            MovementMessageDiscriminant::TranslateCanvasEnd => "TranslateCanvasEnd"@,
            MovementMessageDiscriminant::WheelCanvasTranslate => "WheelCanvasTranslate"@,
            MovementMessageDiscriminant::WheelCanvasZoom => "WheelCanvasZoom"@,
            MovementMessageDiscriminant::ZoomCanvasBegin => "ZoomCanvasBegin"@,
            MovementMessageDiscriminant::ZoomCanvasToFitAll => "ZoomCanvasToFitAll"@,
        }
    }

    /// The action's own name, without the names of the families it belongs to.
    pub fn name(self) -> (name: &'static str)
        ensures
            name@ == self.spec_name(),
    {
        match self {
            MovementMessageDiscriminant::DecreaseCanvasZoom => "DecreaseCanvasZoom",
            MovementMessageDiscriminant::DisableSnapping => "DisableSnapping",
            MovementMessageDiscriminant::EnableSnapping => "EnableSnapping",
            MovementMessageDiscriminant::IncreaseCanvasZoom => "IncreaseCanvasZoom",
            MovementMessageDiscriminant::MouseMove => "MouseMove",
            MovementMessageDiscriminant::RotateCanvasBegin => "RotateCanvasBegin",
            MovementMessageDiscriminant::SetCanvasZoom => "SetCanvasZoom",
            MovementMessageDiscriminant::TranslateCanvasBegin => "TranslateCanvasBegin",
            MovementMessageDiscriminant::TranslateCanvasByViewportFraction => "TranslateCanvasByViewportFraction",
            MovementMessageDiscriminant::TranslateCanvasEnd => "TranslateCanvasEnd",
            MovementMessageDiscriminant::WheelCanvasTranslate => "WheelCanvasTranslate",
            MovementMessageDiscriminant::WheelCanvasZoom => "WheelCanvasZoom",
            MovementMessageDiscriminant::ZoomCanvasBegin => "ZoomCanvasBegin",
            MovementMessageDiscriminant::ZoomCanvasToFitAll => "ZoomCanvasToFitAll",
        }
    }
}

impl MovementMessage {
    /// Which action this is, without what it carries.
    pub open spec fn spec_to_discriminant(self) -> MovementMessageDiscriminant {
        match self {
            MovementMessage::DecreaseCanvasZoom => MovementMessageDiscriminant::DecreaseCanvasZoom,
            MovementMessage::DisableSnapping => MovementMessageDiscriminant::DisableSnapping,
            MovementMessage::EnableSnapping => MovementMessageDiscriminant::EnableSnapping,
            MovementMessage::IncreaseCanvasZoom => MovementMessageDiscriminant::IncreaseCanvasZoom,
            MovementMessage::MouseMove => MovementMessageDiscriminant::MouseMove,
            MovementMessage::RotateCanvasBegin { .. } => MovementMessageDiscriminant::RotateCanvasBegin,
            MovementMessage::SetCanvasZoom(..) => MovementMessageDiscriminant::SetCanvasZoom,
            MovementMessage::TranslateCanvasBegin => MovementMessageDiscriminant::TranslateCanvasBegin,
            MovementMessage::TranslateCanvasByViewportFraction(..) => MovementMessageDiscriminant::TranslateCanvasByViewportFraction,
            MovementMessage::TranslateCanvasEnd => MovementMessageDiscriminant::TranslateCanvasEnd,
            MovementMessage::WheelCanvasTranslate { .. } => MovementMessageDiscriminant::WheelCanvasTranslate,
            MovementMessage::WheelCanvasZoom => MovementMessageDiscriminant::WheelCanvasZoom,
            MovementMessage::ZoomCanvasBegin => MovementMessageDiscriminant::ZoomCanvasBegin,
            MovementMessage::ZoomCanvasToFitAll => MovementMessageDiscriminant::ZoomCanvasToFitAll,
        }
    }

    /// Which action this is, without what it carries.
    pub fn to_discriminant(&self) -> (discriminant: MovementMessageDiscriminant)
        ensures
            discriminant == self.spec_to_discriminant(),
    {
        match self {
            MovementMessage::DecreaseCanvasZoom => MovementMessageDiscriminant::DecreaseCanvasZoom,
            MovementMessage::DisableSnapping => MovementMessageDiscriminant::DisableSnapping,
            MovementMessage::EnableSnapping => MovementMessageDiscriminant::EnableSnapping,
            MovementMessage::IncreaseCanvasZoom => MovementMessageDiscriminant::IncreaseCanvasZoom,
            MovementMessage::MouseMove => MovementMessageDiscriminant::MouseMove,
            MovementMessage::RotateCanvasBegin { .. } => MovementMessageDiscriminant::RotateCanvasBegin,
            MovementMessage::SetCanvasZoom(..) => MovementMessageDiscriminant::SetCanvasZoom,
            MovementMessage::TranslateCanvasBegin => MovementMessageDiscriminant::TranslateCanvasBegin,
            MovementMessage::TranslateCanvasByViewportFraction(..) => MovementMessageDiscriminant::TranslateCanvasByViewportFraction,
            MovementMessage::TranslateCanvasEnd => MovementMessageDiscriminant::TranslateCanvasEnd,
            MovementMessage::WheelCanvasTranslate { .. } => MovementMessageDiscriminant::WheelCanvasTranslate,
            MovementMessage::WheelCanvasZoom => MovementMessageDiscriminant::WheelCanvasZoom,
            MovementMessage::ZoomCanvasBegin => MovementMessageDiscriminant::ZoomCanvasBegin,
            MovementMessage::ZoomCanvasToFitAll => MovementMessageDiscriminant::ZoomCanvasToFitAll,
        }
    }
}

/// Actions on the document that is open.
#[derive(Clone, Copy, Debug, PartialEq, Eq, Hash, Structural)]
pub enum DocumentMessage {
    AbortTransaction,
    CommitTransaction,
    DeleteSelectedLayers,
    DeselectAllLayers,
    DuplicateSelectedLayers,
    ExportDocument,
    /// The distance to move the selection, in whole document units along each axis.
    NudgeSelectedLayers(i32, i32),
    /// How many places to move the selection in its folder.
    ReorderSelectedLayers(i32),
    SaveDocument,
    SelectAllLayers,
    StartTransaction,
    Undo,
}

/// Which action of `DocumentMessage` a message is, without what the action carries.
#[derive(Clone, Copy, Debug, PartialEq, Eq, Hash, Structural)]
pub enum DocumentMessageDiscriminant {
    AbortTransaction,
    CommitTransaction,
    DeleteSelectedLayers,
    DeselectAllLayers,
    DuplicateSelectedLayers,
    ExportDocument,
    NudgeSelectedLayers,
    ReorderSelectedLayers,
    SaveDocument,
    SelectAllLayers,
    StartTransaction,
    Undo,
}

impl DocumentMessageDiscriminant {
    /// The action's own name, without the names of the families it belongs to.
    pub open spec fn spec_name(self) -> Seq<char> {
        match self {
            DocumentMessageDiscriminant::AbortTransaction => "AbortTransaction"@,
            DocumentMessageDiscriminant::CommitTransaction => "CommitTransaction"@,
            DocumentMessageDiscriminant::DeleteSelectedLayers => "DeleteSelectedLayers"@,
            DocumentMessageDiscriminant::DeselectAllLayers => "DeselectAllLayers"@,
            DocumentMessageDiscriminant::DuplicateSelectedLayers => "DuplicateSelectedLayers"@,
            DocumentMessageDiscriminant::ExportDocument => "ExportDocument"@,
            DocumentMessageDiscriminant::NudgeSelectedLayers => "NudgeSelectedLayers"@,
            DocumentMessageDiscriminant::ReorderSelectedLayers => "ReorderSelectedLayers"@,
            DocumentMessageDiscriminant::SaveDocument => "SaveDocument"@,
            DocumentMessageDiscriminant::SelectAllLayers => "SelectAllLayers"@,
            DocumentMessageDiscriminant::StartTransaction => "StartTransaction"@,
            DocumentMessageDiscriminant::Undo => "Undo"@,
        }
    }

    /// The action's own name, without the names of the families it belongs to.
    pub fn name(self) -> (name: &'static str)
        ensures
            name@ == self.spec_name(),
    {
        match self {
            DocumentMessageDiscriminant::AbortTransaction => "AbortTransaction",
            DocumentMessageDiscriminant::CommitTransaction => "CommitTransaction",
            DocumentMessageDiscriminant::DeleteSelectedLayers => "DeleteSelectedLayers",
            DocumentMessageDiscriminant::DeselectAllLayers => "DeselectAllLayers",
            DocumentMessageDiscriminant::DuplicateSelectedLayers => "DuplicateSelectedLayers",
            DocumentMessageDiscriminant::ExportDocument => "ExportDocument",
            DocumentMessageDiscriminant::NudgeSelectedLayers => "NudgeSelectedLayers",
            DocumentMessageDiscriminant::ReorderSelectedLayers => "ReorderSelectedLayers",
            DocumentMessageDiscriminant::SaveDocument => "SaveDocument",
            DocumentMessageDiscriminant::SelectAllLayers => "SelectAllLayers",
            DocumentMessageDiscriminant::StartTransaction => "StartTransaction",
            DocumentMessageDiscriminant::Undo => "Undo",
        }
    }
}

impl DocumentMessage {
    /// Which action this is, without what it carries.
    pub open spec fn spec_to_discriminant(self) -> DocumentMessageDiscriminant {
        match self {
            DocumentMessage::AbortTransaction => DocumentMessageDiscriminant::AbortTransaction,
            DocumentMessage::CommitTransaction => DocumentMessageDiscriminant::CommitTransaction,
            DocumentMessage::DeleteSelectedLayers => DocumentMessageDiscriminant::DeleteSelectedLayers,
            DocumentMessage::DeselectAllLayers => DocumentMessageDiscriminant::DeselectAllLayers,
            DocumentMessage::DuplicateSelectedLayers => DocumentMessageDiscriminant::DuplicateSelectedLayers,
            DocumentMessage::ExportDocument => DocumentMessageDiscriminant::ExportDocument,
            DocumentMessage::NudgeSelectedLayers(..) => DocumentMessageDiscriminant::NudgeSelectedLayers,
            DocumentMessage::ReorderSelectedLayers(..) => DocumentMessageDiscriminant::ReorderSelectedLayers,
            DocumentMessage::SaveDocument => DocumentMessageDiscriminant::SaveDocument,
            DocumentMessage::SelectAllLayers => DocumentMessageDiscriminant::SelectAllLayers,
            DocumentMessage::StartTransaction => DocumentMessageDiscriminant::StartTransaction,
            DocumentMessage::Undo => DocumentMessageDiscriminant::Undo,
        }
    }

    /// Which action this is, without what it carries.
    pub fn to_discriminant(&self) -> (discriminant: DocumentMessageDiscriminant)
        ensures
            discriminant == self.spec_to_discriminant(),
    {
        match self {
            DocumentMessage::AbortTransaction => DocumentMessageDiscriminant::AbortTransaction,
            DocumentMessage::CommitTransaction => DocumentMessageDiscriminant::CommitTransaction,
            DocumentMessage::DeleteSelectedLayers => DocumentMessageDiscriminant::DeleteSelectedLayers,
            DocumentMessage::DeselectAllLayers => DocumentMessageDiscriminant::DeselectAllLayers,
            DocumentMessage::DuplicateSelectedLayers => DocumentMessageDiscriminant::DuplicateSelectedLayers,
            DocumentMessage::ExportDocument => DocumentMessageDiscriminant::ExportDocument,
            DocumentMessage::NudgeSelectedLayers(..) => DocumentMessageDiscriminant::NudgeSelectedLayers,
            DocumentMessage::ReorderSelectedLayers(..) => DocumentMessageDiscriminant::ReorderSelectedLayers,
            DocumentMessage::SaveDocument => DocumentMessageDiscriminant::SaveDocument,
            DocumentMessage::SelectAllLayers => DocumentMessageDiscriminant::SelectAllLayers,
            DocumentMessage::StartTransaction => DocumentMessageDiscriminant::StartTransaction,
            DocumentMessage::Undo => DocumentMessageDiscriminant::Undo,
        }
    }
}

/// Actions that concern the whole editor.
#[derive(Clone, Copy, Debug, PartialEq, Eq, Hash, Structural)]
pub enum GlobalMessage {
    LogDebug,
    LogInfo,
    LogTrace,
}

/// Which action of `GlobalMessage` a message is, without what the action carries.
#[derive(Clone, Copy, Debug, PartialEq, Eq, Hash, Structural)]
pub enum GlobalMessageDiscriminant {
    LogDebug,
    LogInfo,
    LogTrace,
}

impl GlobalMessageDiscriminant {
    /// The action's own name, without the names of the families it belongs to.
    pub open spec fn spec_name(self) -> Seq<char> {
        match self {
            GlobalMessageDiscriminant::LogDebug => "LogDebug"@,
            GlobalMessageDiscriminant::LogInfo => "LogInfo"@,
            GlobalMessageDiscriminant::LogTrace => "LogTrace"@,
        }
    }

    /// The action's own name, without the names of the families it belongs to.
    pub fn name(self) -> (name: &'static str)
        ensures
            name@ == self.spec_name(),
    {
        match self {
            GlobalMessageDiscriminant::LogDebug => "LogDebug",
            GlobalMessageDiscriminant::LogInfo => "LogInfo",
            GlobalMessageDiscriminant::LogTrace => "LogTrace",
        }
    }
}

impl GlobalMessage {
    /// Which action this is, without what it carries.
    pub open spec fn spec_to_discriminant(self) -> GlobalMessageDiscriminant {
        match self {
            GlobalMessage::LogDebug => GlobalMessageDiscriminant::LogDebug,
            GlobalMessage::LogInfo => GlobalMessageDiscriminant::LogInfo,
            GlobalMessage::LogTrace => GlobalMessageDiscriminant::LogTrace,
        }
    }

    /// Which action this is, without what it carries.
    pub fn to_discriminant(&self) -> (discriminant: GlobalMessageDiscriminant)
        ensures
            discriminant == self.spec_to_discriminant(),
    {
        match self {
            GlobalMessage::LogDebug => GlobalMessageDiscriminant::LogDebug,
            GlobalMessage::LogInfo => GlobalMessageDiscriminant::LogInfo,
            GlobalMessage::LogTrace => GlobalMessageDiscriminant::LogTrace,
        }
    }
}

/// Actions of the select tool.
#[derive(Clone, Copy, Debug, PartialEq, Eq, Hash, Structural)]
pub enum SelectMessage {
    Abort,
    DragStart { add_to_selection: Key },
    DragStop,
    MouseMove,
}

/// Which action of `SelectMessage` a message is, without what the action carries.
#[derive(Clone, Copy, Debug, PartialEq, Eq, Hash, Structural)]
pub enum SelectMessageDiscriminant {
    Abort,
    DragStart,
    DragStop,
    MouseMove,
}

impl SelectMessageDiscriminant {
    /// The action's own name, without the names of the families it belongs to.
    pub open spec fn spec_name(self) -> Seq<char> {
        match self {
            SelectMessageDiscriminant::Abort => "Abort"@,
            SelectMessageDiscriminant::DragStart => "DragStart"@,
            SelectMessageDiscriminant::DragStop => "DragStop"@,
            SelectMessageDiscriminant::MouseMove => "MouseMove"@,
        }
    }

    /// The action's own name, without the names of the families it belongs to.
    pub fn name(self) -> (name: &'static str)
        ensures
            name@ == self.spec_name(),
    {
        match self {
            SelectMessageDiscriminant::Abort => "Abort",
            SelectMessageDiscriminant::DragStart => "DragStart",
            SelectMessageDiscriminant::DragStop => "DragStop",
            SelectMessageDiscriminant::MouseMove => "MouseMove",
        }
    }
}

impl SelectMessage {
    /// Which action this is, without what it carries.
    pub open spec fn spec_to_discriminant(self) -> SelectMessageDiscriminant {
        match self {
            SelectMessage::Abort => SelectMessageDiscriminant::Abort,
            SelectMessage::DragStart { .. } => SelectMessageDiscriminant::DragStart,
            SelectMessage::DragStop => SelectMessageDiscriminant::DragStop,
            SelectMessage::MouseMove => SelectMessageDiscriminant::MouseMove,
        }
    }

    /// Which action this is, without what it carries.
    pub fn to_discriminant(&self) -> (discriminant: SelectMessageDiscriminant)
        ensures
            discriminant == self.spec_to_discriminant(),
    {
        match self {
            SelectMessage::Abort => SelectMessageDiscriminant::Abort,
            SelectMessage::DragStart { .. } => SelectMessageDiscriminant::DragStart,
            SelectMessage::DragStop => SelectMessageDiscriminant::DragStop,
            SelectMessage::MouseMove => SelectMessageDiscriminant::MouseMove,
        }
    }
}

/// Actions of the eyedropper tool.
#[derive(Clone, Copy, Debug, PartialEq, Eq, Hash, Structural)]
pub enum EyedropperMessage {
    LeftMouseDown,
    RightMouseDown,
}

/// Which action of `EyedropperMessage` a message is, without what the action carries.
#[derive(Clone, Copy, Debug, PartialEq, Eq, Hash, Structural)]
pub enum EyedropperMessageDiscriminant {
    LeftMouseDown,
    RightMouseDown,
}

impl EyedropperMessageDiscriminant {
    /// The action's own name, without the names of the families it belongs to.
    pub open spec fn spec_name(self) -> Seq<char> {
        match self {
            EyedropperMessageDiscriminant::LeftMouseDown => "LeftMouseDown"@,
            EyedropperMessageDiscriminant::RightMouseDown => "RightMouseDown"@,
        }
    }

    /// The action's own name, without the names of the families it belongs to.
    pub fn name(self) -> (name: &'static str)
        ensures
            name@ == self.spec_name(),
    {
        match self {
            EyedropperMessageDiscriminant::LeftMouseDown => "LeftMouseDown",
            EyedropperMessageDiscriminant::RightMouseDown => "RightMouseDown",
        }
    }
}

impl EyedropperMessage {
    /// Which action this is, without what it carries.
    pub open spec fn spec_to_discriminant(self) -> EyedropperMessageDiscriminant {
        match self {
            EyedropperMessage::LeftMouseDown => EyedropperMessageDiscriminant::LeftMouseDown,
            EyedropperMessage::RightMouseDown => EyedropperMessageDiscriminant::RightMouseDown,
        }
    }

    /// Which action this is, without what it carries.
    pub fn to_discriminant(&self) -> (discriminant: EyedropperMessageDiscriminant)
        ensures
            discriminant == self.spec_to_discriminant(),
    {
        match self {
            EyedropperMessage::LeftMouseDown => EyedropperMessageDiscriminant::LeftMouseDown,
            EyedropperMessage::RightMouseDown => EyedropperMessageDiscriminant::RightMouseDown,
        }
    }
}

/// Actions of the ellipse tool.
#[derive(Clone, Copy, Debug, PartialEq, Eq, Hash, Structural)]
pub enum EllipseMessage {
    Abort,
    DragStart,
    DragStop,
    Resize { center: Key, lock_ratio: Key },
}

/// Which action of `EllipseMessage` a message is, without what the action carries.
#[derive(Clone, Copy, Debug, PartialEq, Eq, Hash, Structural)]
pub enum EllipseMessageDiscriminant {
    Abort,
    DragStart,
    DragStop,
    Resize,
}

impl EllipseMessageDiscriminant {
    /// The action's own name, without the names of the families it belongs to.
    pub open spec fn spec_name(self) -> Seq<char> {
        match self {
            EllipseMessageDiscriminant::Abort => "Abort"@,
            EllipseMessageDiscriminant::DragStart => "DragStart"@,
            EllipseMessageDiscriminant::DragStop => "DragStop"@,
            EllipseMessageDiscriminant::Resize => "Resize"@,
        }
    }

    /// The action's own name, without the names of the families it belongs to.
    pub fn name(self) -> (name: &'static str)
        ensures
            name@ == self.spec_name(),
    {
        match self {
            EllipseMessageDiscriminant::Abort => "Abort",
            EllipseMessageDiscriminant::DragStart => "DragStart",
            EllipseMessageDiscriminant::DragStop => "DragStop",
            EllipseMessageDiscriminant::Resize => "Resize",
        }
    }
}

impl EllipseMessage {
    /// Which action this is, without what it carries.
    pub open spec fn spec_to_discriminant(self) -> EllipseMessageDiscriminant {
        match self {
            EllipseMessage::Abort => EllipseMessageDiscriminant::Abort,
            EllipseMessage::DragStart => EllipseMessageDiscriminant::DragStart,
            EllipseMessage::DragStop => EllipseMessageDiscriminant::DragStop,
            EllipseMessage::Resize { .. } => EllipseMessageDiscriminant::Resize,
        }
    }

    /// Which action this is, without what it carries.
    pub fn to_discriminant(&self) -> (discriminant: EllipseMessageDiscriminant)
        ensures
            discriminant == self.spec_to_discriminant(),
    {
        match self {
            EllipseMessage::Abort => EllipseMessageDiscriminant::Abort,
            EllipseMessage::DragStart => EllipseMessageDiscriminant::DragStart,
            EllipseMessage::DragStop => EllipseMessageDiscriminant::DragStop,
            EllipseMessage::Resize { .. } => EllipseMessageDiscriminant::Resize,
        }
    }
}

/// Actions of the shape tool.
#[derive(Clone, Copy, Debug, PartialEq, Eq, Hash, Structural)]
pub enum ShapeMessage {
    Abort,
    DragStart,
    DragStop,
    Resize { center: Key, lock_ratio: Key },
}

/// Which action of `ShapeMessage` a message is, without what the action carries.
#[derive(Clone, Copy, Debug, PartialEq, Eq, Hash, Structural)]
pub enum ShapeMessageDiscriminant {
    Abort,
    DragStart,
    DragStop,
    Resize,
}

impl ShapeMessageDiscriminant {
    /// The action's own name, without the names of the families it belongs to.
    pub open spec fn spec_name(self) -> Seq<char> {
        match self {
            ShapeMessageDiscriminant::Abort => "Abort"@,
            ShapeMessageDiscriminant::DragStart => "DragStart"@,
            ShapeMessageDiscriminant::DragStop => "DragStop"@,
            ShapeMessageDiscriminant::Resize => "Resize"@,
        }
    }

    /// The action's own name, without the names of the families it belongs to.
    pub fn name(self) -> (name: &'static str)
        ensures
            name@ == self.spec_name(),
    {
        match self {
            ShapeMessageDiscriminant::Abort => "Abort",
            ShapeMessageDiscriminant::DragStart => "DragStart",
            ShapeMessageDiscriminant::DragStop => "DragStop",
            ShapeMessageDiscriminant::Resize => "Resize",
        }
    }
}

impl ShapeMessage {
    /// Which action this is, without what it carries.
    pub open spec fn spec_to_discriminant(self) -> ShapeMessageDiscriminant {
        match self {
            ShapeMessage::Abort => ShapeMessageDiscriminant::Abort,
            ShapeMessage::DragStart => ShapeMessageDiscriminant::DragStart,
            ShapeMessage::DragStop => ShapeMessageDiscriminant::DragStop,
            ShapeMessage::Resize { .. } => ShapeMessageDiscriminant::Resize,
        }
    }

    /// Which action this is, without what it carries.
    pub fn to_discriminant(&self) -> (discriminant: ShapeMessageDiscriminant)
        ensures
            discriminant == self.spec_to_discriminant(),
    {
        match self {
            ShapeMessage::Abort => ShapeMessageDiscriminant::Abort,
            ShapeMessage::DragStart => ShapeMessageDiscriminant::DragStart,
            ShapeMessage::DragStop => ShapeMessageDiscriminant::DragStop,
            ShapeMessage::Resize { .. } => ShapeMessageDiscriminant::Resize,
        }
    }
}

/// Actions of the line tool.
#[derive(Clone, Copy, Debug, PartialEq, Eq, Hash, Structural)]
pub enum LineMessage {
    Abort,
    DragStart,
    DragStop,
    Redraw { center: Key, lock_angle: Key, snap_angle: Key },
}

/// Which action of `LineMessage` a message is, without what the action carries.
#[derive(Clone, Copy, Debug, PartialEq, Eq, Hash, Structural)]
pub enum LineMessageDiscriminant {
    Abort,
    DragStart,
    DragStop,
    Redraw,
}

impl LineMessageDiscriminant {
    /// The action's own name, without the names of the families it belongs to.
    pub open spec fn spec_name(self) -> Seq<char> {
        match self {
            LineMessageDiscriminant::Abort => "Abort"@,
            LineMessageDiscriminant::DragStart => "DragStart"@,
            LineMessageDiscriminant::DragStop => "DragStop"@,
            LineMessageDiscriminant::Redraw => "Redraw"@,
        }
    }

    /// The action's own name, without the names of the families it belongs to.
    pub fn name(self) -> (name: &'static str)
        ensures
            name@ == self.spec_name(),
    {
        match self {
            LineMessageDiscriminant::Abort => "Abort",
            LineMessageDiscriminant::DragStart => "DragStart",
            LineMessageDiscriminant::DragStop => "DragStop",
            LineMessageDiscriminant::Redraw => "Redraw",
        }
    }
}

impl LineMessage {
    /// Which action this is, without what it carries.
    pub open spec fn spec_to_discriminant(self) -> LineMessageDiscriminant {
        match self {
            LineMessage::Abort => LineMessageDiscriminant::Abort,
            LineMessage::DragStart => LineMessageDiscriminant::DragStart,
            LineMessage::DragStop => LineMessageDiscriminant::DragStop,
            LineMessage::Redraw { .. } => LineMessageDiscriminant::Redraw,
        }
    }

    /// Which action this is, without what it carries.
    pub fn to_discriminant(&self) -> (discriminant: LineMessageDiscriminant)
        ensures
            discriminant == self.spec_to_discriminant(),
    {
        match self {
            LineMessage::Abort => LineMessageDiscriminant::Abort,
            LineMessage::DragStart => LineMessageDiscriminant::DragStart,
            LineMessage::DragStop => LineMessageDiscriminant::DragStop,
            LineMessage::Redraw { .. } => LineMessageDiscriminant::Redraw,
        }
    }
}

/// Actions of the pen tool.
#[derive(Clone, Copy, Debug, PartialEq, Eq, Hash, Structural)]
pub enum PenMessage {
    Confirm,
    DragStart,
    DragStop,
    PointerMove,
}

/// Which action of `PenMessage` a message is, without what the action carries.
#[derive(Clone, Copy, Debug, PartialEq, Eq, Hash, Structural)]
pub enum PenMessageDiscriminant {
    Confirm,
    DragStart,
    DragStop,
    PointerMove,
}

impl PenMessageDiscriminant {
    /// The action's own name, without the names of the families it belongs to.
    pub open spec fn spec_name(self) -> Seq<char> {
        match self {
            PenMessageDiscriminant::Confirm => "Confirm"@,
            PenMessageDiscriminant::DragStart => "DragStart"@,
            PenMessageDiscriminant::DragStop => "DragStop"@,
            PenMessageDiscriminant::PointerMove => "PointerMove"@,
        }
    }

    /// The action's own name, without the names of the families it belongs to.
    pub fn name(self) -> (name: &'static str)
        ensures
            name@ == self.spec_name(),
    {
        match self {
            PenMessageDiscriminant::Confirm => "Confirm",
            PenMessageDiscriminant::DragStart => "DragStart",
            PenMessageDiscriminant::DragStop => "DragStop",
            PenMessageDiscriminant::PointerMove => "PointerMove",
        }
    }
}

impl PenMessage {
    /// Which action this is, without what it carries.
    pub open spec fn spec_to_discriminant(self) -> PenMessageDiscriminant {
        match self {
            PenMessage::Confirm => PenMessageDiscriminant::Confirm,
            PenMessage::DragStart => PenMessageDiscriminant::DragStart,
            PenMessage::DragStop => PenMessageDiscriminant::DragStop,
            PenMessage::PointerMove => PenMessageDiscriminant::PointerMove,
        }
    }

    /// Which action this is, without what it carries.
    pub fn to_discriminant(&self) -> (discriminant: PenMessageDiscriminant)
        ensures
            discriminant == self.spec_to_discriminant(),
    {
        match self {
            PenMessage::Confirm => PenMessageDiscriminant::Confirm,
            PenMessage::DragStart => PenMessageDiscriminant::DragStart,
            PenMessage::DragStop => PenMessageDiscriminant::DragStop,
            PenMessage::PointerMove => PenMessageDiscriminant::PointerMove,
        }
    }
}

/// Actions of the fill tool.
#[derive(Clone, Copy, Debug, PartialEq, Eq, Hash, Structural)]
pub enum FillMessage {
    MouseDown,
}

/// Which action of `FillMessage` a message is, without what the action carries.
#[derive(Clone, Copy, Debug, PartialEq, Eq, Hash, Structural)]
pub enum FillMessageDiscriminant {
    MouseDown,
}

impl FillMessageDiscriminant {
    /// The action's own name, without the names of the families it belongs to.
    pub open spec fn spec_name(self) -> Seq<char> {
        match self {
            FillMessageDiscriminant::MouseDown => "MouseDown"@,
        }
    }

    /// The action's own name, without the names of the families it belongs to.
    pub fn name(self) -> (name: &'static str)
        ensures
            name@ == self.spec_name(),
    {
        match self {
            FillMessageDiscriminant::MouseDown => "MouseDown",
        }
    }
}

impl FillMessage {
    /// Which action this is, without what it carries.
    pub open spec fn spec_to_discriminant(self) -> FillMessageDiscriminant {
        match self {
            FillMessage::MouseDown => FillMessageDiscriminant::MouseDown,
        }
    }

    /// Which action this is, without what it carries.
    pub fn to_discriminant(&self) -> (discriminant: FillMessageDiscriminant)
        ensures
            discriminant == self.spec_to_discriminant(),
    {
        match self {
            FillMessage::MouseDown => FillMessageDiscriminant::MouseDown,
        }
    }
}

/// Actions that go to the tools: a few for all of them, the others for one tool each.
#[derive(Clone, Copy, Debug, PartialEq, Eq, Hash, Structural)]
pub enum ToolMessage {
    ResetColors,
    SelectTool(ToolType),
    SwapColors,
    /// Asks the active tool to say again which cursor it wants.
    UpdateCursor,
    /// Asks the active tool to say again which inputs it listens to.
    UpdateHints,
    Ellipse(EllipseMessage),
    Eyedropper(EyedropperMessage),
    Fill(FillMessage),
    Line(LineMessage),
    Pen(PenMessage),
    Rectangle(RectangleToolMessage),
    Select(SelectMessage),
    Shape(ShapeMessage),
}

/// Which action of `ToolMessage` a message is, without what the action carries.
#[derive(Clone, Copy, Debug, PartialEq, Eq, Hash, Structural)]
pub enum ToolMessageDiscriminant {
    ResetColors,
    SelectTool,
    SwapColors,
    UpdateCursor,
    UpdateHints,
    Ellipse(EllipseMessageDiscriminant),
    Eyedropper(EyedropperMessageDiscriminant),
    Fill(FillMessageDiscriminant),
    Line(LineMessageDiscriminant),
    Pen(PenMessageDiscriminant),
    Rectangle(RectangleToolMessageDiscriminant),
    Select(SelectMessageDiscriminant),
    Shape(ShapeMessageDiscriminant),
}

impl ToolMessageDiscriminant {
    /// The action's own name, without the names of the families it belongs to.
    pub open spec fn spec_name(self) -> Seq<char> {
        match self {
            ToolMessageDiscriminant::ResetColors => "ResetColors"@,
            ToolMessageDiscriminant::SelectTool => "SelectTool"@,
            ToolMessageDiscriminant::SwapColors => "SwapColors"@,
            ToolMessageDiscriminant::UpdateCursor => "UpdateCursor"@,
            ToolMessageDiscriminant::UpdateHints => "UpdateHints"@,
            ToolMessageDiscriminant::Ellipse(child) => child.spec_name(),
            ToolMessageDiscriminant::Eyedropper(child) => child.spec_name(),
            ToolMessageDiscriminant::Fill(child) => child.spec_name(),
            ToolMessageDiscriminant::Line(child) => child.spec_name(),
            ToolMessageDiscriminant::Pen(child) => child.spec_name(),
            ToolMessageDiscriminant::Rectangle(child) => child.spec_name(),
            ToolMessageDiscriminant::Select(child) => child.spec_name(),
            ToolMessageDiscriminant::Shape(child) => child.spec_name(),
        }
    }

    /// The action's own name, without the names of the families it belongs to.
    pub fn name(self) -> (name: &'static str)
        ensures
            name@ == self.spec_name(),
    {
        match self {
            ToolMessageDiscriminant::ResetColors => "ResetColors",
            ToolMessageDiscriminant::SelectTool => "SelectTool",
            ToolMessageDiscriminant::SwapColors => "SwapColors",
            ToolMessageDiscriminant::UpdateCursor => "UpdateCursor",
            ToolMessageDiscriminant::UpdateHints => "UpdateHints",
            ToolMessageDiscriminant::Ellipse(child) => child.name(),
            ToolMessageDiscriminant::Eyedropper(child) => child.name(),
            ToolMessageDiscriminant::Fill(child) => child.name(),
            ToolMessageDiscriminant::Line(child) => child.name(),
            ToolMessageDiscriminant::Pen(child) => child.name(),
            ToolMessageDiscriminant::Rectangle(child) => child.name(),
            ToolMessageDiscriminant::Select(child) => child.name(),
            ToolMessageDiscriminant::Shape(child) => child.name(),
        }
    }
}

impl ToolMessage {
    /// Which action this is, without what it carries.
    pub open spec fn spec_to_discriminant(self) -> ToolMessageDiscriminant {
        match self {
            ToolMessage::ResetColors => ToolMessageDiscriminant::ResetColors,
            ToolMessage::SelectTool(..) => ToolMessageDiscriminant::SelectTool,
            ToolMessage::SwapColors => ToolMessageDiscriminant::SwapColors,
            ToolMessage::UpdateCursor => ToolMessageDiscriminant::UpdateCursor,
            ToolMessage::UpdateHints => ToolMessageDiscriminant::UpdateHints,
            ToolMessage::Ellipse(child) => ToolMessageDiscriminant::Ellipse(child.spec_to_discriminant()),
            ToolMessage::Eyedropper(child) => ToolMessageDiscriminant::Eyedropper(child.spec_to_discriminant()),
            ToolMessage::Fill(child) => ToolMessageDiscriminant::Fill(child.spec_to_discriminant()),
            ToolMessage::Line(child) => ToolMessageDiscriminant::Line(child.spec_to_discriminant()),
            ToolMessage::Pen(child) => ToolMessageDiscriminant::Pen(child.spec_to_discriminant()),
            ToolMessage::Rectangle(child) => ToolMessageDiscriminant::Rectangle(child.spec_to_discriminant()),
            ToolMessage::Select(child) => ToolMessageDiscriminant::Select(child.spec_to_discriminant()),
            ToolMessage::Shape(child) => ToolMessageDiscriminant::Shape(child.spec_to_discriminant()),
        }
    }

    /// Which action this is, without what it carries.
    pub fn to_discriminant(&self) -> (discriminant: ToolMessageDiscriminant)
        ensures
            discriminant == self.spec_to_discriminant(),
    {
        match self {
            ToolMessage::ResetColors => ToolMessageDiscriminant::ResetColors,
            ToolMessage::SelectTool(..) => ToolMessageDiscriminant::SelectTool,
            ToolMessage::SwapColors => ToolMessageDiscriminant::SwapColors,
            ToolMessage::UpdateCursor => ToolMessageDiscriminant::UpdateCursor,
            ToolMessage::UpdateHints => ToolMessageDiscriminant::UpdateHints,
            ToolMessage::Ellipse(child) => ToolMessageDiscriminant::Ellipse(child.to_discriminant()),
            ToolMessage::Eyedropper(child) => ToolMessageDiscriminant::Eyedropper(child.to_discriminant()),
            ToolMessage::Fill(child) => ToolMessageDiscriminant::Fill(child.to_discriminant()),
            ToolMessage::Line(child) => ToolMessageDiscriminant::Line(child.to_discriminant()),
            ToolMessage::Pen(child) => ToolMessageDiscriminant::Pen(child.to_discriminant()),
            ToolMessage::Rectangle(child) => ToolMessageDiscriminant::Rectangle(child.to_discriminant()),
            ToolMessage::Select(child) => ToolMessageDiscriminant::Select(child.to_discriminant()),
            ToolMessage::Shape(child) => ToolMessageDiscriminant::Shape(child.to_discriminant()),
        }
    }
}

/// Actions on the set of open documents.
#[derive(Debug, PartialEq, Eq)]
pub enum DocumentsMessage {
    CloseActiveDocumentWithConfirmation,
    CloseAllDocumentsWithConfirmation,
    CopySelectedLayers,
    NewDocument,
    NextDocument,
    /// Pastes the copied layers into the folder at `path`, at place `insert_index` (at the end if it is negative).
    PasteLayers { path: Vec<LayerId>, insert_index: isize },
    PrevDocument,
}

/// What a `DocumentsMessage` says, with sequences in place of vectors and strings.
pub enum DocumentsMessageView {
    CloseActiveDocumentWithConfirmation,
    CloseAllDocumentsWithConfirmation,
    CopySelectedLayers,
    NewDocument,
    NextDocument,
    PasteLayers { path: Seq<LayerId>, insert_index: isize },
    PrevDocument,
}

impl View for DocumentsMessage {
    type V = DocumentsMessageView;

    open spec fn view(&self) -> DocumentsMessageView {
        match self {
            DocumentsMessage::CloseActiveDocumentWithConfirmation => DocumentsMessageView::CloseActiveDocumentWithConfirmation,
            DocumentsMessage::CloseAllDocumentsWithConfirmation => DocumentsMessageView::CloseAllDocumentsWithConfirmation,
            DocumentsMessage::CopySelectedLayers => DocumentsMessageView::CopySelectedLayers,
            DocumentsMessage::NewDocument => DocumentsMessageView::NewDocument,
            DocumentsMessage::NextDocument => DocumentsMessageView::NextDocument,
            DocumentsMessage::PasteLayers { path, insert_index } => DocumentsMessageView::PasteLayers {
                path: path@,
                insert_index: *insert_index,
            },
            DocumentsMessage::PrevDocument => DocumentsMessageView::PrevDocument,
        }
    }
}

/// Which action of `DocumentsMessage` a message is, without what the action carries.
#[derive(Clone, Copy, Debug, PartialEq, Eq, Hash, Structural)]
pub enum DocumentsMessageDiscriminant {
    CloseActiveDocumentWithConfirmation,
    CloseAllDocumentsWithConfirmation,
    CopySelectedLayers,
    NewDocument,
    NextDocument,
    PasteLayers,
    PrevDocument,
}

impl DocumentsMessageDiscriminant {
    /// The action's own name, without the names of the families it belongs to.
    pub open spec fn spec_name(self) -> Seq<char> {
        match self {
            DocumentsMessageDiscriminant::CloseActiveDocumentWithConfirmation => "CloseActiveDocumentWithConfirmation"@,
            DocumentsMessageDiscriminant::CloseAllDocumentsWithConfirmation => "CloseAllDocumentsWithConfirmation"@,
            DocumentsMessageDiscriminant::CopySelectedLayers => "CopySelectedLayers"@,
            DocumentsMessageDiscriminant::NewDocument => "NewDocument"@,
            DocumentsMessageDiscriminant::NextDocument => "NextDocument"@,
            DocumentsMessageDiscriminant::PasteLayers => "PasteLayers"@,
            DocumentsMessageDiscriminant::PrevDocument => "PrevDocument"@,
        }
    }

    /// The action's own name, without the names of the families it belongs to.
    pub fn name(self) -> (name: &'static str)
        ensures
            name@ == self.spec_name(),
    {
        match self {
            DocumentsMessageDiscriminant::CloseActiveDocumentWithConfirmation => "CloseActiveDocumentWithConfirmation",
            DocumentsMessageDiscriminant::CloseAllDocumentsWithConfirmation => "CloseAllDocumentsWithConfirmation",
            DocumentsMessageDiscriminant::CopySelectedLayers => "CopySelectedLayers",
            DocumentsMessageDiscriminant::NewDocument => "NewDocument",
            DocumentsMessageDiscriminant::NextDocument => "NextDocument",
            DocumentsMessageDiscriminant::PasteLayers => "PasteLayers",
            DocumentsMessageDiscriminant::PrevDocument => "PrevDocument",
        }
    }
}

impl DocumentsMessageView {
    /// Which action this is, without what it carries.
    pub open spec fn discriminant(self) -> DocumentsMessageDiscriminant {
        match self {
            DocumentsMessageView::CloseActiveDocumentWithConfirmation => DocumentsMessageDiscriminant::CloseActiveDocumentWithConfirmation,
            DocumentsMessageView::CloseAllDocumentsWithConfirmation => DocumentsMessageDiscriminant::CloseAllDocumentsWithConfirmation,
            DocumentsMessageView::CopySelectedLayers => DocumentsMessageDiscriminant::CopySelectedLayers,
            DocumentsMessageView::NewDocument => DocumentsMessageDiscriminant::NewDocument,
            DocumentsMessageView::NextDocument => DocumentsMessageDiscriminant::NextDocument,
            DocumentsMessageView::PasteLayers { .. } => DocumentsMessageDiscriminant::PasteLayers,
            DocumentsMessageView::PrevDocument => DocumentsMessageDiscriminant::PrevDocument,
        }
    }
}

impl DocumentsMessage {
    /// Which action this is, without what it carries.
    pub fn to_discriminant(&self) -> (discriminant: DocumentsMessageDiscriminant)
        ensures
            discriminant == self@.discriminant(),
    {
        match self {
            DocumentsMessage::CloseActiveDocumentWithConfirmation => DocumentsMessageDiscriminant::CloseActiveDocumentWithConfirmation,
            DocumentsMessage::CloseAllDocumentsWithConfirmation => DocumentsMessageDiscriminant::CloseAllDocumentsWithConfirmation,
            DocumentsMessage::CopySelectedLayers => DocumentsMessageDiscriminant::CopySelectedLayers,
            DocumentsMessage::NewDocument => DocumentsMessageDiscriminant::NewDocument,
            DocumentsMessage::NextDocument => DocumentsMessageDiscriminant::NextDocument,
            DocumentsMessage::PasteLayers { .. } => DocumentsMessageDiscriminant::PasteLayers,
            DocumentsMessage::PrevDocument => DocumentsMessageDiscriminant::PrevDocument,
        }
    }
}

impl Clone for DocumentsMessage {
    /// A copy that says the same.
    fn clone(&self) -> (copy: Self)
        ensures
            copy@ == self@,
    {
        match self {
            DocumentsMessage::CloseActiveDocumentWithConfirmation => DocumentsMessage::CloseActiveDocumentWithConfirmation,
            DocumentsMessage::CloseAllDocumentsWithConfirmation => DocumentsMessage::CloseAllDocumentsWithConfirmation,
            DocumentsMessage::CopySelectedLayers => DocumentsMessage::CopySelectedLayers,
            DocumentsMessage::NewDocument => DocumentsMessage::NewDocument,
            DocumentsMessage::NextDocument => DocumentsMessage::NextDocument,
            DocumentsMessage::PasteLayers { path, insert_index } => DocumentsMessage::PasteLayers {
                path: path.clone(),
                insert_index: *insert_index,
            },
            DocumentsMessage::PrevDocument => DocumentsMessage::PrevDocument,
        }
    }
}

/// Changes to the layers of the document.
#[derive(Debug, PartialEq, Eq)]
pub enum Operation {
    /// Adds a rectangle as the layer at `path`, at place `insert_index` of its folder (at the end if it is negative).
    AddRect { path: Vec<LayerId>, insert_index: isize, transform: Affine, style: PathStyle },
    /// Places the layer at `path` in the viewport by `transform`.
    SetLayerTransformInViewport { path: Vec<LayerId>, transform: Affine },
}

/// What a `Operation` says, with sequences in place of vectors and strings.
pub enum OperationView {
    AddRect { path: Seq<LayerId>, insert_index: isize, transform: Affine, style: PathStyle },
    SetLayerTransformInViewport { path: Seq<LayerId>, transform: Affine },
}

impl View for Operation {
    type V = OperationView;

    open spec fn view(&self) -> OperationView {
        match self {
            Operation::AddRect { path, insert_index, transform, style } => OperationView::AddRect {
                path: path@,
                insert_index: *insert_index,
                transform: *transform,
                style: *style,
            },
            Operation::SetLayerTransformInViewport { path, transform } => OperationView::SetLayerTransformInViewport {
                path: path@,
                transform: *transform,
            },
        }
    }
}

/// Which action of `Operation` a message is, without what the action carries.
#[derive(Clone, Copy, Debug, PartialEq, Eq, Hash, Structural)]
pub enum OperationDiscriminant {
    AddRect,
    SetLayerTransformInViewport,
}

impl OperationDiscriminant {
    /// The action's own name, without the names of the families it belongs to.
    pub open spec fn spec_name(self) -> Seq<char> {
        match self {
            OperationDiscriminant::AddRect => "AddRect"@,
            OperationDiscriminant::SetLayerTransformInViewport => "SetLayerTransformInViewport"@,
        }
    }

    /// The action's own name, without the names of the families it belongs to.
    pub fn name(self) -> (name: &'static str)
        ensures
            name@ == self.spec_name(),
    {
        match self {
            OperationDiscriminant::AddRect => "AddRect",
            OperationDiscriminant::SetLayerTransformInViewport => "SetLayerTransformInViewport",
        }
    }
}

impl OperationView {
    /// Which action this is, without what it carries.
    pub open spec fn discriminant(self) -> OperationDiscriminant {
        match self {
            OperationView::AddRect { .. } => OperationDiscriminant::AddRect,
            OperationView::SetLayerTransformInViewport { .. } => OperationDiscriminant::SetLayerTransformInViewport,
        }
    }
}

impl Operation {
    /// Which action this is, without what it carries.
    pub fn to_discriminant(&self) -> (discriminant: OperationDiscriminant)
        ensures
            discriminant == self@.discriminant(),
    {
        match self {
            Operation::AddRect { .. } => OperationDiscriminant::AddRect,
            Operation::SetLayerTransformInViewport { .. } => OperationDiscriminant::SetLayerTransformInViewport,
        }
    }
}

impl Clone for Operation {
    /// A copy that says the same.
    fn clone(&self) -> (copy: Self)
        ensures
            copy@ == self@,
    {
        match self {
            Operation::AddRect { path, insert_index, transform, style } => Operation::AddRect {
                path: path.clone(),
                insert_index: *insert_index,
                transform: *transform,
                style: *style,
            },
            Operation::SetLayerTransformInViewport { path, transform } => Operation::SetLayerTransformInViewport {
                path: path.clone(),
                transform: *transform,
            },
        }
    }
}

/// What the editor tells the front end, and what it asks of it.
#[derive(Debug, PartialEq, Eq)]
pub enum FrontendMessage {
    OpenDocumentBrowse,
    UpdateInputHints { hint_data: HintData },
    UpdateMouseCursor { cursor: MouseCursorIcon },
}

/// What a `FrontendMessage` says, with sequences in place of vectors and strings.
pub enum FrontendMessageView {
    OpenDocumentBrowse,
    UpdateInputHints { hint_data: Seq<Seq<HintInfoView>> },
    UpdateMouseCursor { cursor: MouseCursorIcon },
}

impl View for FrontendMessage {
    type V = FrontendMessageView;

    open spec fn view(&self) -> FrontendMessageView {
        match self {
            FrontendMessage::OpenDocumentBrowse => FrontendMessageView::OpenDocumentBrowse,
            FrontendMessage::UpdateInputHints { hint_data } => FrontendMessageView::UpdateInputHints {
                hint_data: hint_data@,
            },
            FrontendMessage::UpdateMouseCursor { cursor } => FrontendMessageView::UpdateMouseCursor {
                cursor: *cursor,
            },
        }
    }
}

/// Which action of `FrontendMessage` a message is, without what the action carries.
#[derive(Clone, Copy, Debug, PartialEq, Eq, Hash, Structural)]
pub enum FrontendMessageDiscriminant {
    OpenDocumentBrowse,
    UpdateInputHints,
    UpdateMouseCursor,
}

impl FrontendMessageDiscriminant {
    /// The action's own name, without the names of the families it belongs to.
    pub open spec fn spec_name(self) -> Seq<char> {
        match self {
            FrontendMessageDiscriminant::OpenDocumentBrowse => "OpenDocumentBrowse"@,
            FrontendMessageDiscriminant::UpdateInputHints => "UpdateInputHints"@,
            FrontendMessageDiscriminant::UpdateMouseCursor => "UpdateMouseCursor"@,
        }
    }

    /// The action's own name, without the names of the families it belongs to.
    pub fn name(self) -> (name: &'static str)
        ensures
            name@ == self.spec_name(),
    {
        match self {
            FrontendMessageDiscriminant::OpenDocumentBrowse => "OpenDocumentBrowse",
            FrontendMessageDiscriminant::UpdateInputHints => "UpdateInputHints",
            FrontendMessageDiscriminant::UpdateMouseCursor => "UpdateMouseCursor",
        }
    }
}

impl FrontendMessageView {
    /// Which action this is, without what it carries.
    pub open spec fn discriminant(self) -> FrontendMessageDiscriminant {
        match self {
            FrontendMessageView::OpenDocumentBrowse => FrontendMessageDiscriminant::OpenDocumentBrowse,
            FrontendMessageView::UpdateInputHints { .. } => FrontendMessageDiscriminant::UpdateInputHints,
            FrontendMessageView::UpdateMouseCursor { .. } => FrontendMessageDiscriminant::UpdateMouseCursor,
        }
    }
}

impl FrontendMessage {
    /// Which action this is, without what it carries.
    pub fn to_discriminant(&self) -> (discriminant: FrontendMessageDiscriminant)
        ensures
            discriminant == self@.discriminant(),
    {
        match self {
            FrontendMessage::OpenDocumentBrowse => FrontendMessageDiscriminant::OpenDocumentBrowse,
            FrontendMessage::UpdateInputHints { .. } => FrontendMessageDiscriminant::UpdateInputHints,
            FrontendMessage::UpdateMouseCursor { .. } => FrontendMessageDiscriminant::UpdateMouseCursor,
        }
    }
}

impl Clone for FrontendMessage {
    /// A copy that says the same.
    fn clone(&self) -> (copy: Self)
        ensures
            copy@ == self@,
    {
        match self {
            FrontendMessage::OpenDocumentBrowse => FrontendMessage::OpenDocumentBrowse,
            FrontendMessage::UpdateInputHints { hint_data } => FrontendMessage::UpdateInputHints {
                hint_data: hint_data.clone(),
            },
            FrontendMessage::UpdateMouseCursor { cursor } => FrontendMessage::UpdateMouseCursor {
                cursor: *cursor,
            },
        }
    }
}

/// One action of the editor, with what it carries.
#[derive(Debug, PartialEq, Eq)]
pub enum Message {
    Document(DocumentMessage),
    Documents(DocumentsMessage),
    Frontend(FrontendMessage),
    Global(GlobalMessage),
    Movement(MovementMessage),
    Operation(Operation),
    Tool(ToolMessage),
}

/// What a `Message` says, with sequences in place of vectors and strings.
pub enum MessageView {
    Document(DocumentMessage),
    Documents(DocumentsMessageView),
    Frontend(FrontendMessageView),
    Global(GlobalMessage),
    Movement(MovementMessage),
    Operation(OperationView),
    Tool(ToolMessage),
}

impl View for Message {
    type V = MessageView;

    open spec fn view(&self) -> MessageView {
        match self {
            Message::Document(child) => MessageView::Document(*child),
            Message::Documents(child) => MessageView::Documents(child@),
            Message::Frontend(child) => MessageView::Frontend(child@),
            Message::Global(child) => MessageView::Global(*child),
            Message::Movement(child) => MessageView::Movement(*child),
            Message::Operation(child) => MessageView::Operation(child@),
            Message::Tool(child) => MessageView::Tool(*child),
        }
    }
}

/// Which action of `Message` a message is, without what the action carries.
#[derive(Clone, Copy, Debug, PartialEq, Eq, Hash, Structural)]
pub enum MessageDiscriminant {
    Document(DocumentMessageDiscriminant),
    Documents(DocumentsMessageDiscriminant),
    Frontend(FrontendMessageDiscriminant),
    Global(GlobalMessageDiscriminant),
    Movement(MovementMessageDiscriminant),
    Operation(OperationDiscriminant),
    Tool(ToolMessageDiscriminant),
}

impl MessageDiscriminant {
    /// The action's own name, without the names of the families it belongs to.
    pub open spec fn spec_name(self) -> Seq<char> {
        match self {
            MessageDiscriminant::Document(child) => child.spec_name(),
            MessageDiscriminant::Documents(child) => child.spec_name(),
            MessageDiscriminant::Frontend(child) => child.spec_name(),
            MessageDiscriminant::Global(child) => child.spec_name(),
            MessageDiscriminant::Movement(child) => child.spec_name(),
            MessageDiscriminant::Operation(child) => child.spec_name(),
            MessageDiscriminant::Tool(child) => child.spec_name(),
        }
    }

    /// The action's own name, without the names of the families it belongs to.
    pub fn name(self) -> (name: &'static str)
        ensures
            name@ == self.spec_name(),
    {
        match self {
            MessageDiscriminant::Document(child) => child.name(),
            MessageDiscriminant::Documents(child) => child.name(),
            MessageDiscriminant::Frontend(child) => child.name(),
            MessageDiscriminant::Global(child) => child.name(),
            MessageDiscriminant::Movement(child) => child.name(),
            MessageDiscriminant::Operation(child) => child.name(),
            MessageDiscriminant::Tool(child) => child.name(),
        }
    }
}

impl MessageView {
    /// Which action this is, without what it carries.
    pub open spec fn discriminant(self) -> MessageDiscriminant {
        match self {
            MessageView::Document(child) => MessageDiscriminant::Document(child.spec_to_discriminant()),
            MessageView::Documents(child) => MessageDiscriminant::Documents(child.discriminant()),
            MessageView::Frontend(child) => MessageDiscriminant::Frontend(child.discriminant()),
            MessageView::Global(child) => MessageDiscriminant::Global(child.spec_to_discriminant()),
            MessageView::Movement(child) => MessageDiscriminant::Movement(child.spec_to_discriminant()),
            MessageView::Operation(child) => MessageDiscriminant::Operation(child.discriminant()),
            MessageView::Tool(child) => MessageDiscriminant::Tool(child.spec_to_discriminant()),
        }
    }
}

impl Message {
    /// Which action this is, without what it carries. Two messages with the same
    /// discriminant are the same action, whatever they carry.
    pub fn to_discriminant(&self) -> (discriminant: MessageDiscriminant)
        ensures
            discriminant == self@.discriminant(),
    {
        match self {
            Message::Document(child) => MessageDiscriminant::Document(child.to_discriminant()),
            Message::Documents(child) => MessageDiscriminant::Documents(child.to_discriminant()),
            Message::Frontend(child) => MessageDiscriminant::Frontend(child.to_discriminant()),
            Message::Global(child) => MessageDiscriminant::Global(child.to_discriminant()),
            Message::Movement(child) => MessageDiscriminant::Movement(child.to_discriminant()),
            Message::Operation(child) => MessageDiscriminant::Operation(child.to_discriminant()),
            Message::Tool(child) => MessageDiscriminant::Tool(child.to_discriminant()),
        }
    }
}

impl Clone for Message {
    /// A copy that says the same.
    fn clone(&self) -> (copy: Self)
        ensures
            copy@ == self@,
    {
        match self {
            Message::Document(child) => Message::Document(*child),
            Message::Documents(child) => Message::Documents(child.clone()),
            Message::Frontend(child) => Message::Frontend(child.clone()),
            Message::Global(child) => Message::Global(*child),
            Message::Movement(child) => Message::Movement(*child),
            Message::Operation(child) => Message::Operation(child.clone()),
            Message::Tool(child) => Message::Tool(*child),
        }
    }
}

/// The messages of `queue`, each as what it says.
pub open spec fn message_views(queue: Seq<Message>) -> Seq<MessageView> {
    queue.map_values(|message: Message| message@)
}

} // verus!
