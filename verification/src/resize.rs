use crate::input_preprocessor::InputPreprocessor;
use crate::keyboard::Key;
use crate::message::LayerId;
use crate::message::Message;
use crate::message::MessageView;
use crate::message::Operation;
use crate::message::OperationView;
use crate::style::Affine;
use crate::style::ViewportPosition;
use vstd::prelude::*;

verus! {

/// How far the pointer must move, in pixels, for a drag to count as one. A
/// drag that ends within this distance of its start is given up.
pub const DRAG_THRESHOLD: u32 = 1;

/// Whether `stop` lies within `DRAG_THRESHOLD` of `start`, by the straight
/// distance between the two.
pub open spec fn spec_within_drag_threshold(start: ViewportPosition, stop: ViewportPosition) -> bool {
    (stop.x - start.x) * (stop.x - start.x) + (stop.y - start.y) * (stop.y - start.y)
        <= DRAG_THRESHOLD * DRAG_THRESHOLD
}

/// Whether `stop` lies within `DRAG_THRESHOLD` of `start`.
pub fn within_drag_threshold(start: ViewportPosition, stop: ViewportPosition) -> (within: bool)
    ensures
        within == spec_within_drag_threshold(start, stop),
{
    let across: i128 = stop.x as i128 - start.x as i128;
    let down: i128 = stop.y as i128 - start.y as i128;
    assert(across * across <= 0x1_0000_0000 * 0x1_0000_0000 && across * across >= 0)
        by (nonlinear_arith)
        requires
            -0x1_0000_0000 <= across <= 0x1_0000_0000,
    ;
    assert(down * down <= 0x1_0000_0000 * 0x1_0000_0000 && down * down >= 0) by (nonlinear_arith)
        requires
            -0x1_0000_0000 <= down <= 0x1_0000_0000,
    ;
    let limit: i128 = DRAG_THRESHOLD as i128;
    across * across + down * down <= limit * limit
}

/// The size of a box that is dragged from `start` to `stop`, along each axis.
/// With `lock_ratio` the box is a square on the longer of the two sides, open
/// towards the pointer.
pub open spec fn drag_size(start: ViewportPosition, stop: ViewportPosition, lock_ratio: bool) -> (
    int,
    int,
) {
    let across = stop.x - start.x;
    let down = stop.y - start.y;
    let wide = if across < 0 {
        -across
    } else {
        across
    };
    let high = if down < 0 {
        -down
    } else {
        down
    };
    let side = if wide >= high {
        wide
    } else {
        high
    };
    if lock_ratio {
        (
            if across < 0 {
                -side
            } else {
                side
            },
            if down < 0 {
                -side
            } else {
                side
            },
        )
    } else {
        (across, down)
    }
}

/// The map that places the unit square on the box that is dragged from `start`
/// to `stop`. With `center` the drag starts at the middle of the box, which
/// is then twice as large in both directions.
pub open spec fn drag_box(
    start: ViewportPosition,
    stop: ViewportPosition,
    lock_ratio: bool,
    center: bool,
) -> Affine {
    let size = drag_size(start, stop, lock_ratio);
    if center {
        Affine::spec_from_scale_translation(
            ((2 * size.0) as i64, (2 * size.1) as i64),
            ((start.x - size.0) as i64, (start.y - size.1) as i64),
        )
    } else {
        Affine::spec_from_scale_translation(
            (size.0 as i64, size.1 as i64),
            (start.x as i64, start.y as i64),
        )
    }
}

/// What a tool keeps while a box is dragged: where the drag started, and the
/// layer that is drawn, as long as there is one.
#[derive(Debug, PartialEq, Eq)]
pub struct Resize {
    pub drag_start: ViewportPosition,
    pub path: Option<Vec<LayerId>>,
}

/// What a `Resize` says.
pub struct ResizeView {
    pub drag_start: ViewportPosition,
    pub path: Option<Seq<LayerId>>,
}

impl View for Resize {
    type V = ResizeView;

    open spec fn view(&self) -> ResizeView {
        ResizeView {
            drag_start: self.drag_start,
            path: match self.path {
                Some(path) => Some(path@),
                None => None,
            },
        }
    }
}

impl ResizeView {
    /// The message that fits the layer to the pointer again, where there is a
    /// layer.
    pub open spec fn transform_message(
        self,
        center: Key,
        lock_ratio: Key,
        input: InputPreprocessor,
    ) -> Option<MessageView> {
        match self.path {
            Some(path) => Some(
                MessageView::Operation(
                    OperationView::SetLayerTransformInViewport {
                        path,
                        transform: drag_box(
                            self.drag_start,
                            input.mouse.position,
                            input.keyboard@.contains(lock_ratio),
                            input.keyboard@.contains(center),
                        ),
                    },
                ),
            ),
            None => None,
        }
    }
}

impl Resize {
    /// The state before any drag.
    pub fn new() -> (resize: Resize)
        ensures
            resize@ == (ResizeView { drag_start: ViewportPosition { x: 0, y: 0 }, path: None }),
    {
        Resize { drag_start: ViewportPosition { x: 0, y: 0 }, path: None }
    }

    /// Starts a drag where the pointer is.
    pub fn start(&mut self, mouse_position: ViewportPosition)
        ensures
            final(self)@ == (ResizeView { drag_start: mouse_position, path: old(self)@.path }),
    {
        self.drag_start = mouse_position;
    }

    /// The message that fits the layer to the pointer again: the layer is
    /// placed on the box from the start of the drag to the pointer. While the
    /// key `lock_ratio` is held the box is a square; while `center` is held
    /// the drag starts at the middle of the box. No layer, no message.
    pub fn calculate_transform(&self, center: Key, lock_ratio: Key, input: &InputPreprocessor) -> (message:
        Option<Message>)
        ensures
            match message {
                Some(found) => self@.transform_message(center, lock_ratio, *input) == Some(
                    found@,
                ),
                None => self@.transform_message(center, lock_ratio, *input).is_none(),
            },
    {
        match &self.path {
            Some(path) => {
                let mut start: (i64, i64) = (self.drag_start.x as i64, self.drag_start.y as i64);
                let stop: (i64, i64) = (
                    input.mouse.position.x as i64,
                    input.mouse.position.y as i64,
                );
                let mut size: (i64, i64) = (stop.0 - start.0, stop.1 - start.1);
                if input.keyboard.get(lock_ratio) {
                    let wide: i64 = if size.0 < 0 {
                        -size.0
                    } else {
                        size.0
                    };
                    let high: i64 = if size.1 < 0 {
                        -size.1
                    } else {
                        size.1
                    };
                    let side: i64 = if wide >= high {
                        wide
                    } else {
                        high
                    };
                    size = (
                        if size.0 < 0 {
                            -side
                        } else {
                            side
                        },
                        if size.1 < 0 {
                            -side
                        } else {
                            side
                        },
                    );
                }
                if input.keyboard.get(center) {
                    start = (start.0 - size.0, start.1 - size.1);
                    size = (2 * size.0, 2 * size.1);
                }
                Some(
                    Message::Operation(
                        Operation::SetLayerTransformInViewport {
                            path: path.clone(),
                            transform: Affine::from_scale_translation(size, start),
                        },
                    ),
                )
            },
            None => None,
        }
    }

    /// Ends the drag: the layer is let go.
    pub fn cleanup(&mut self)
        ensures
            final(self)@ == (ResizeView { drag_start: old(self)@.drag_start, path: None }),
    {
        self.path = None;
    }
}

impl Default for Resize {
    fn default() -> (resize: Resize)
        ensures
            resize@ == (ResizeView { drag_start: ViewportPosition { x: 0, y: 0 }, path: None }),
    {
        Resize::new()
    }
}

} // verus!
