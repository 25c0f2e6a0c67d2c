//! The arguments of the browser: a range of the history and a flag.

use vstd::prelude::*;
use vstd::string::StringExecFns;

verus! {

/// What the arguments ask for.
#[derive(Clone, Debug, PartialEq, Eq)]
pub struct Args {
    pub revision_range: String,
    pub show: bool,
}

/// The arguments of `args` that are not the flag, in order.
pub open spec fn ranges(args: Seq<String>) -> Seq<Seq<char>>
    decreases args.len(),
{
    if args.len() == 0 {
        Seq::empty()
    } else if args.last()@ == "--show"@ {
        ranges(args.drop_last())
    } else {
        ranges(args.drop_last()).push(args.last()@)
    }
}

/// Whether the flag stands among `args`.
pub open spec fn has_flag(args: Seq<String>) -> bool {
    exists|i: int| 0 <= i < args.len() && (#[trigger] args[i])@ == "--show"@
}

/// The message for a second range among the arguments.
pub open spec fn second_range_message(range: Seq<char>) -> Seq<char> {
    "cannot pass multiple commits ("@ + range + ")"@
}

/// Reads the arguments that follow the program's name. The flag `--show`
/// asks for a single record; any other argument is the range of the history
/// to browse, `HEAD` where there is none. A second range is refused with a
/// message that names it.
pub fn parse_args(args: &Vec<String>) -> (parsed: Result<Args, String>)
    ensures
        match parsed {
            Ok(found) => {
                &&& ranges(args@).len() <= 1
                &&& found.show == has_flag(args@)
                &&& found.revision_range@ == (if ranges(args@).len() == 1 {
                    ranges(args@)[0]
                } else {
                    "HEAD"@
                })
            },
            Err(message) => ranges(args@).len() > 1 && message@ == second_range_message(
                ranges(args@)[1],
            ),
        },
{
    let flag = "--show".to_owned();
    let mut show = false;
    let mut revision_range: Option<String> = None;
    let mut i: usize = 0;
    while i < args.len()
        invariant
            i <= args.len(),
            flag@ == "--show"@,
            show == has_flag(args@.take(i as int)),
            ranges(args@.take(i as int)).len() <= 1,
            match revision_range {
                Some(range) => ranges(args@.take(i as int)) == seq![range@],
                None => ranges(args@.take(i as int)).len() == 0,
            },
        decreases args.len() - i,
    {
        let ghost before = args@.take(i as int);
        let ghost now = args@.take(i + 1);
        assert(now.drop_last() =~= before);
        assert(now.last() == args@[i as int]);
        if args[i] == flag {
            show = true;
            assert(has_flag(now)) by {
                assert(now[i as int]@ == "--show"@);
            }
        } else if revision_range.is_none() {
            revision_range = Some(args[i].clone());
            assert(ranges(now) =~= seq![args@[i as int]@]);
            assert(has_flag(now) == has_flag(before)) by {
                lemma_flag_step(before, now);
            }
        } else {
            let mut message = "cannot pass multiple commits (".to_owned();
            message.append(args[i].as_str());
            message.append(")");
            proof {
                lemma_ranges_grow(now, args@);
                assert(ranges(now).len() == 2);
                assert(ranges(now)[1] == args@[i as int]@);
            }
            return Err(message);
        }
        i += 1;
    }
    assert(args@.take(i as int) =~= args@);
    Ok(
        Args {
            revision_range: match revision_range {
                Some(range) => range,
                None => "HEAD".to_owned(),
            },
            show,
        },
    )
}

proof fn lemma_flag_step(before: Seq<String>, now: Seq<String>)
    requires
        now.len() == before.len() + 1,
        now.drop_last() == before,
    ensures
        has_flag(now) == (has_flag(before) || now.last()@ == "--show"@),
{
    if has_flag(before) {
        let i = choose|i: int| 0 <= i < before.len() && (#[trigger] before[i])@ == "--show"@;
        assert(now[i] == before[i]);
    }
    if has_flag(now) {
        let i = choose|i: int| 0 <= i < now.len() && (#[trigger] now[i])@ == "--show"@;
        if i < before.len() {
            assert(now[i] == before[i]);
        }
    }
}

/// The ranges among the first arguments stay the first ranges among all.
proof fn lemma_ranges_grow(first: Seq<String>, all: Seq<String>)
    requires
        first.len() <= all.len(),
        first == all.take(first.len() as int),
    ensures
        ranges(first).len() <= ranges(all).len(),
        forall|k: int| 0 <= k < ranges(first).len() ==> ranges(first)[k] == ranges(all)[k],
    decreases all.len(),
{
    if first.len() < all.len() {
        let rest = all.drop_last();
        assert(rest.take(first.len() as int) =~= first);
        lemma_ranges_grow(first, rest);
    } else {
        assert(first =~= all);
    }
}

} // verus!
