//! Input regions: which part of a surface accepts pointer and touch input.
use crate::geometry::Rect;
use vstd::prelude::*;

verus! {

/// Whether and how a surface restricts its input region, which lets pointer
/// and touch input fall through the surface to what lies beneath it.
#[derive(Clone, Copy, Debug, PartialEq, Eq, Structural)]
pub enum InputRegions {
    /// The entire surface takes input.
    Full,
    /// The background layer takes no input; only windows, popups and the
    /// like do.
    WindowsOnly,
    /// The surface takes no pointer or touch input at all.
    Empty,
}

impl Default for InputRegions {
    fn default() -> (policy: InputRegions)
        ensures
            policy == InputRegions::Full,
    {
        InputRegions::Full
    }
}

/// The layer categories of the interface engine, bottom to top.
#[derive(Clone, Copy, Debug, PartialEq, Eq, Structural)]
pub enum Order {
    Background,
    Middle,
    Foreground,
    Tooltip,
    Debug,
}

/// What the interface engine reports of one of its areas after a frame.
/// The position and the size are pixel-aligned, and either may be unknown.
#[derive(Clone, Copy, Debug, PartialEq, Eq)]
pub struct AreaInfo {
    pub order: Order,
    pub visible: bool,
    pub position: Option<(i32, i32)>,
    pub size: Option<(i32, i32)>,
}

impl AreaInfo {
    /// The area's bounding box, if the area takes input under
    /// `InputRegions::WindowsOnly`: it is visible, lies above the background
    /// layer, and its position and size are known.
    pub open spec fn bounds(self) -> Option<Rect> {
        if self.visible && self.order != Order::Background {
            match (self.position, self.size) {
                (Some(position), Some(size)) => Some(
                    Rect { x: position.0, y: position.1, width: size.0, height: size.1 },
                ),
                _ => None,
            }
        } else {
            None
        }
    }

    /// The area's bounding box, if the area takes input under
    /// `InputRegions::WindowsOnly`.
    pub fn bounding_box(&self) -> (bounds: Option<Rect>)
        ensures
            bounds == self.bounds(),
    {
        if !self.visible {
            return None;
        }
        match self.order {
            Order::Background => None,
            _ => match (self.position, self.size) {
                (Some(position), Some(size)) => Some(
                    Rect { x: position.0, y: position.1, width: size.0, height: size.1 },
                ),
                _ => None,
            },
        }
    }
}

/// The bounding boxes of the areas that take input, in the areas' order.
pub open spec fn area_rects(areas: Seq<AreaInfo>) -> Seq<Rect>
    decreases areas.len(),
{
    if areas.len() == 0 {
        seq![]
    } else {
        let before = area_rects(areas.drop_last());
        match areas.last().bounds() {
            Some(rect) => before.push(rect),
            None => before,
        }
    }
}

/// The input region of a surface: everything, or the union of a list of
/// rectangles.
#[derive(Clone, Debug, PartialEq, Eq)]
pub enum InputRegion {
    /// No restriction: the whole surface accepts input.
    Unrestricted,
    /// Only what the rectangles cover accepts input.
    Rects(Vec<Rect>),
}

impl View for InputRegion {
    type V = Option<Seq<Rect>>;

    /// `None` for the unrestricted region, else the rectangles.
    open spec fn view(&self) -> Option<Seq<Rect>> {
        match self {
            InputRegion::Unrestricted => None,
            InputRegion::Rects(rects) => Some(rects@),
        }
    }
}

/// Whether a region accepts input at the pixel `(x, y)`.
pub open spec fn accepts(region: Option<Seq<Rect>>, x: int, y: int) -> bool {
    match region {
        None => true,
        Some(rects) => exists|i: int| 0 <= i < rects.len() && (#[trigger] rects[i]).covers(x, y),
    }
}

impl InputRegions {
    /// The region that a surface is given when it is created, before the
    /// interface has run: everything under `Full`, nothing under the other
    /// policies.
    pub open spec fn initial(self) -> Option<Seq<Rect>> {
        match self {
            InputRegions::Full => None,
            _ => Some(seq![Rect::nothing()]),
        }
    }

    /// The region that the policy yields for the areas that the interface
    /// reported after a frame.
    pub open spec fn applied(self, areas: Seq<AreaInfo>) -> Option<Seq<Rect>> {
        match self {
            InputRegions::Full => None,
            InputRegions::WindowsOnly => Some(area_rects(areas)),
            InputRegions::Empty => Some(seq![Rect::nothing()]),
        }
    }

    /// The region that a surface is given when it is created.
    pub fn initial_region(self) -> (region: InputRegion)
        ensures
            region@ == self.initial(),
    {
        match self {
            InputRegions::Full => InputRegion::Unrestricted,
            _ => {
                let mut rects: Vec<Rect> = Vec::new();
                rects.push(Rect::empty());
                InputRegion::Rects(rects)
            },
        }
    }

    /// The region to set after a frame, given the areas that the interface
    /// engine reported.
    pub fn region(self, areas: &Vec<AreaInfo>) -> (region: InputRegion)
        ensures
            region@ == self.applied(areas@),
    {
        match self {
            InputRegions::Full => InputRegion::Unrestricted,
            InputRegions::WindowsOnly => {
                let mut rects: Vec<Rect> = Vec::new();
                let mut at: usize = 0;
                while at < areas.len()
                    invariant
                        at <= areas.len(),
                        rects@ == area_rects(areas@.take(at as int)),
                    decreases areas.len() - at,
                {
                    proof {
                        let next = areas@.take(at + 1);
                        assert(next.drop_last() == areas@.take(at as int));
                        assert(next.last() == areas@[at as int]);
                    }
                    if let Some(rect) = areas[at].bounding_box() {
                        rects.push(rect);
                    }
                    at += 1;
                }
                proof {
                    assert(areas@.take(at as int) == areas@);
                }
                InputRegion::Rects(rects)
            },
            InputRegions::Empty => {
                let mut rects: Vec<Rect> = Vec::new();
                rects.push(Rect::empty());
                InputRegion::Rects(rects)
            },
        }
    }
}

/// A rectangle is among the bounding boxes exactly when it is the bounding
/// box of one of the areas.
pub proof fn lemma_area_rects(areas: Seq<AreaInfo>, rect: Rect)
    ensures
        area_rects(areas).contains(rect) <==> exists|i: int|
            0 <= i < areas.len() && (#[trigger] areas[i]).bounds() == Some(rect),
    decreases areas.len(),
{
    if areas.len() == 0 {
    } else {
        let front = areas.drop_last();
        let before = area_rects(front);
        lemma_area_rects(front, rect);
        if area_rects(areas).contains(rect) {
            let at = choose|k: int| 0 <= k < area_rects(areas).len() && area_rects(areas)[k] == rect;
            if at < before.len() {
                assert(before[at] == rect);
                assert(before.contains(rect));
                let i = choose|i: int| 0 <= i < front.len() && (#[trigger] front[i]).bounds() == Some(rect);
                assert(areas[i].bounds() == Some(rect));
            } else {
                assert(areas[areas.len() - 1].bounds() == Some(rect));
            }
        }
        if exists|i: int| 0 <= i < areas.len() && (#[trigger] areas[i]).bounds() == Some(rect) {
            let i = choose|i: int| 0 <= i < areas.len() && (#[trigger] areas[i]).bounds() == Some(rect);
            if i < front.len() {
                assert(front[i].bounds() == Some(rect));
                let k = choose|k: int| 0 <= k < before.len() && before[k] == rect;
                assert(area_rects(areas)[k] == rect);
            } else {
                assert(areas.last().bounds() == Some(rect));
                assert(area_rects(areas)[before.len() as int] == rect);
            }
        }
    }
}

/// Under `Empty` no pixel accepts input, whatever the interface shows.
pub proof fn lemma_empty_accepts_nothing(areas: Seq<AreaInfo>, x: int, y: int)
    ensures
        !accepts(InputRegions::Empty.applied(areas), x, y),
        !accepts(InputRegions::Empty.initial(), x, y),
{
    let rects = seq![Rect::nothing()];
    assert(forall|i: int| 0 <= i < rects.len() ==> !(#[trigger] rects[i]).covers(x, y));
}

/// Under `Full` every pixel accepts input, whatever the interface shows.
pub proof fn lemma_full_accepts_everything(areas: Seq<AreaInfo>, x: int, y: int)
    ensures
        accepts(InputRegions::Full.applied(areas), x, y),
        accepts(InputRegions::Full.initial(), x, y),
{
}

/// Under `WindowsOnly` a pixel accepts input exactly when the bounding box
/// of a visible area above the background covers it: the region is the
/// union of those boxes.
pub proof fn lemma_windows_only_is_union(areas: Seq<AreaInfo>, x: int, y: int)
    ensures
        accepts(InputRegions::WindowsOnly.applied(areas), x, y) <==> exists|i: int|
            0 <= i < areas.len() && (#[trigger] areas[i]).bounds() is Some
                && areas[i].bounds()->0.covers(x, y),
{
    let rects = area_rects(areas);
    if accepts(Some(rects), x, y) {
        let k = choose|k: int| 0 <= k < rects.len() && (#[trigger] rects[k]).covers(x, y);
        assert(rects.contains(rects[k]));
        lemma_area_rects(areas, rects[k]);
        let i = choose|i: int| 0 <= i < areas.len() && (#[trigger] areas[i]).bounds() == Some(rects[k]);
        assert(areas[i].bounds() is Some && areas[i].bounds()->0.covers(x, y));
    }
    if exists|i: int|
        0 <= i < areas.len() && (#[trigger] areas[i]).bounds() is Some
            && areas[i].bounds()->0.covers(x, y) {
        let i = choose|i: int|
            0 <= i < areas.len() && (#[trigger] areas[i]).bounds() is Some
                && areas[i].bounds()->0.covers(x, y);
        let rect = areas[i].bounds()->0;
        lemma_area_rects(areas, rect);
        let k = choose|k: int| 0 <= k < rects.len() && rects[k] == rect;
        assert(rects[k].covers(x, y));
    }
}

} // verus!
