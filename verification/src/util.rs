//! Small helpers on trait paths.

use vstd::prelude::*;

use crate::model::TraitPath;
use crate::model::clone_string_vec;

verus! {

/// The path with the generic arguments of its last segment stripped: the
/// form under which declarations are keyed.
pub fn trim_generic_param(path: &TraitPath) -> (r: TraitPath)
    ensures
        r@.segments == path@.segments,
        r@.args.len() == 0,
{
    let r = TraitPath { segments: clone_string_vec(&path.segments), args: Vec::new() };
    proof {
        assert(crate::model::view_arg_seq(r.args@) =~= Seq::<crate::model::SpecGenericArg>::empty());
    }
    r
}

} // verus!
