use vstd::prelude::*;

verus! {

/// The build target a runner invocation starts with: the requested name
/// when it is one of the declared targets, the declared default otherwise.
pub open spec fn selected_target(
    targets: Seq<Seq<char>>,
    requested: Seq<char>,
    default_target: Seq<char>,
) -> Seq<char> {
    if targets.contains(requested) {
        requested
    } else {
        default_target
    }
}

/// Pick the start target from the declared target names.
pub fn select_target(targets: &Vec<String>, requested: &str, default_target: &str) -> (r: String)
    ensures
        r@ == selected_target(targets.deep_view(), requested@, default_target@),
{
    let requested_owned = requested.to_owned();
    let mut i: usize = 0;
    while i < targets.len()
        invariant
            i <= targets@.len(),
            requested_owned@ == requested@,
            forall|j: int| 0 <= j < i ==> targets.deep_view()[j] != requested@,
        decreases targets@.len() - i,
    {
        if targets[i] == requested_owned {
            proof {
                assert(targets.deep_view()[i as int] == requested@);
                assert(targets.deep_view().contains(requested@));
            }
            return requested_owned;
        }
        proof {
            assert(targets.deep_view()[i as int] == targets@[i as int]@);
        }
        i = i + 1;
    }
    proof {
        assert forall|j: int| 0 <= j < targets.deep_view().len() implies targets.deep_view()[j]
            != requested@ by {}
        assert(!targets.deep_view().contains(requested@));
    }
    default_target.to_owned()
}

} // verus!
