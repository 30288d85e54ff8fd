//! Where and how a surface is placed.
use crate::region::InputRegions;
use vstd::prelude::*;

verus! {

/// The band of the desktop shell that a surface is placed in, bottom to
/// top.
#[derive(Clone, Copy, Debug, PartialEq, Eq, Structural)]
pub enum Layer {
    Background,
    Bottom,
    Top,
    Overlay,
}

/// The placement of a surface to register.
#[derive(Clone, Copy, Debug)]
pub struct LayerAppOpts<'a> {
    /// The band to place the surface in.
    pub layer: Layer,
    /// A label by which the compositor can tell the surface's purpose.
    pub namespace: Option<&'a str>,
    /// Whether and how the surface restricts its input region.
    pub input_regions: InputRegions,
}

impl<'a> Default for LayerAppOpts<'a> {
    /// The default placement: the top band, no label, input everywhere.
    fn default() -> (opts: LayerAppOpts<'a>)
        ensures
            opts.layer == Layer::Top,
            opts.namespace is None,
            opts.input_regions == InputRegions::Full,
    {
        LayerAppOpts { layer: Layer::Top, namespace: None, input_regions: InputRegions::Full }
    }
}

/// Whether `index` is the first output that the embedder's predicate
/// accepted, `accepted` holding the predicate's answer for each known
/// output.
pub open spec fn is_first_accepted(accepted: Seq<bool>, index: int) -> bool {
    &&& 0 <= index < accepted.len()
    &&& accepted[index]
    &&& forall|j: int| 0 <= j < index ==> !accepted[j]
}

/// Picks the output for a surface: the first that the embedder's predicate
/// accepted. `accepted` holds the predicate's answer for each known output,
/// in the outputs' order. Where the predicate accepted none, `None` leaves
/// the choice to the compositor.
pub fn select_output(accepted: &Vec<bool>) -> (chosen: Option<usize>)
    ensures
        match chosen {
            Some(index) => is_first_accepted(accepted@, index as int),
            None => forall|j: int| 0 <= j < accepted.len() ==> !accepted[j],
        },
{
    let mut index: usize = 0;
    while index < accepted.len()
        invariant
            index <= accepted.len(),
            forall|j: int| 0 <= j < index ==> !accepted[j],
        decreases accepted.len() - index,
    {
        if accepted[index] {
            return Some(index);
        }
        index += 1;
    }
    None
}

} // verus!
