use vstd::prelude::*;

verus! {

/// One step of a path that is made of straight lines only: the pen is set
/// down at a point, drawn to a point, or the outline is closed.
#[derive(Clone, Copy, Debug, PartialEq, Eq)]
pub enum PathStep<P> {
    MoveTo(P),
    LineTo(P),
    ClosePath,
}

/// Where the pen is after the first `count` steps: at the point that it was
/// last set down at or drawn to, and nowhere before the first step and after
/// an outline is closed.
pub open spec fn pen_after<P>(steps: Seq<PathStep<P>>, count: nat) -> Option<P>
    decreases count,
{
    if count == 0 || count > steps.len() {
        None
    } else {
        match steps[count - 1] {
            PathStep::MoveTo(point) => Some(point),
            PathStep::LineTo(point) => Some(point),
            PathStep::ClosePath => None,
        }
    }
}

/// The lines that the first `count` steps draw, in their order. A step that
/// draws to a point gives the line from where the pen is. A step that closes
/// the outline gives the line from the start of the first line of all to the
/// end of the last one.
pub open spec fn lines_after<P>(steps: Seq<PathStep<P>>, count: nat) -> Seq<(P, P)>
    decreases count,
{
    if count == 0 || count > steps.len() {
        Seq::<(P, P)>::empty()
    } else {
        let before = lines_after(steps, (count - 1) as nat);
        match (pen_after(steps, (count - 1) as nat), steps[count - 1]) {
            (Some(first), PathStep::LineTo(second)) => before.push((first, second)),
            (_, PathStep::ClosePath) => if before.len() > 0 {
                before.push((before[0].0, before.last().1))
            } else {
                before
            },
            _ => before,
        }
    }
}

/// Whether the first `count` steps can be drawn: the pen is set down only
/// where it is nowhere, is drawn on only from where it is, and an outline is
/// closed only after a line has been drawn.
pub open spec fn can_be_drawn<P>(steps: Seq<PathStep<P>>, count: nat) -> bool
    decreases count,
{
    if count == 0 {
        true
    } else {
        &&& count <= steps.len()
        &&& can_be_drawn(steps, (count - 1) as nat)
        &&& match (pen_after(steps, (count - 1) as nat), steps[count - 1]) {
            (None, PathStep::MoveTo(_)) => true,
            (Some(_), PathStep::LineTo(_)) => true,
            (_, PathStep::ClosePath) => lines_after(steps, (count - 1) as nat).len() > 0,
            _ => false,
        }
    }
}

/// Steps that cannot be drawn up to some place cannot be drawn beyond it.
proof fn lemma_cannot_be_drawn_on<P>(steps: Seq<PathStep<P>>, count: nat, more: nat)
    requires
        !can_be_drawn(steps, count),
        count <= more,
    ensures
        !can_be_drawn(steps, more),
    decreases more,
{
    if count < more {
        lemma_cannot_be_drawn_on(steps, count, (more - 1) as nat);
    }
}

/// The lines that `steps` draw, in their order; none where the steps cannot
/// be drawn.
pub fn line_segments<P: Copy>(steps: &Vec<PathStep<P>>) -> (lines: Option<Vec<(P, P)>>)
    ensures
        match lines {
            Some(drawn) => can_be_drawn(steps@, steps@.len()) && drawn@ == lines_after(
                steps@,
                steps@.len(),
            ),
            None => !can_be_drawn(steps@, steps@.len()),
        },
{
    let mut paths: Vec<(P, P)> = Vec::new();
    let mut state: Option<P> = None;
    let mut index: usize = 0;
    while index < steps.len()
        invariant
            index <= steps.len(),
            can_be_drawn(steps@, index as nat),
            state == pen_after(steps@, index as nat),
            paths@ == lines_after(steps@, index as nat),
        decreases steps.len() - index,
    {
        state = match (state, steps[index]) {
            (None, PathStep::MoveTo(point)) => Some(point),
            (Some(first), PathStep::LineTo(second)) => {
                paths.push((first, second));
                Some(second)
            },
            (_, PathStep::ClosePath) => {
                if paths.len() == 0 {
                    proof {
                        lemma_cannot_be_drawn_on(steps@, (index + 1) as nat, steps@.len());
                    }
                    return None;
                }
                let closing = (paths[0].0, paths[paths.len() - 1].1);
                paths.push(closing);
                None
            },
            _ => {
                proof {
                    lemma_cannot_be_drawn_on(steps@, (index + 1) as nat, steps@.len());
                }
                return None;
            },
        };
        index = index + 1;
    }
    Some(paths)
}

} // verus!
