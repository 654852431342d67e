use vstd::prelude::*;

verus! {

/// One suspended-continuation node as observed at failure time: its rendered
/// dump and its parent, `None` at the chain's root. The innermost pending
/// frame is the head of the chain; following `up` leads to the root.
pub struct Frame {
    pub dump: String,
    pub up: Option<Box<Frame>>,
}

/// The dumps along the chain from `f` to the root, innermost first.
pub open spec fn frames_of(f: Frame) -> Seq<Seq<char>>
    decreases f,
{
    match f.up {
        None => seq![f.dump@],
        Some(parent) => seq![f.dump@] + frames_of(*parent),
    }
}

/// The number of nodes on the chain from `f` to the root.
pub open spec fn chain_len(f: Frame) -> nat
    decreases f,
{
    match f.up {
        None => 1,
        Some(parent) => 1 + chain_len(*parent),
    }
}

/// The root of the chain that `f` belongs to: the one node without a parent.
pub open spec fn root_of(f: Frame) -> Frame
    decreases f,
{
    match f.up {
        None => f,
        Some(parent) => root_of(*parent),
    }
}

/// Backtrace ordering: a chain of N suspended continuations renders to
/// exactly N entries, the innermost frame first, the last entry being the
/// root's dump — the one node whose parent lookup reports none.
pub proof fn lemma_backtrace_order(f: Frame)
    ensures
        frames_of(f).len() == chain_len(f),
        chain_len(f) >= 1,
        frames_of(f).first() == f.dump@,
        frames_of(f).last() == root_of(f).dump@,
        root_of(f).up is None,
    decreases f,
{
    match f.up {
        None => {},
        Some(parent) => {
            lemma_backtrace_order(*parent);
            assert(frames_of(f).last() == frames_of(*parent).last());
        },
    }
}

/// Renders the whole continuation chain reachable from `innermost`, walking
/// the `up` relation until the root: one entry per node, innermost first.
pub fn render_backtrace(innermost: &Frame) -> (r: Vec<String>)
    ensures
        r@.len() == chain_len(*innermost),
        forall|i: int|
            0 <= i < r@.len() ==> (#[trigger] r@[i])@ == frames_of(*innermost)[i],
{
    let mut out: Vec<String> = Vec::new();
    let mut cur: &Frame = innermost;
    let mut done: bool = false;
    while !done
        invariant
            !done ==> out@.len() + chain_len(*cur) == chain_len(*innermost),
            !done ==> frames_of(*innermost) =~= out@.map_values(|s: String| s@) + frames_of(
                *cur,
            ),
            done ==> out@.len() == chain_len(*innermost),
            forall|i: int|
                0 <= i < out@.len() ==> (#[trigger] out@[i])@ == frames_of(*innermost)[i],
        decreases chain_len(*cur) + (if done {
            0int
        } else {
            1int
        }),
    {
        proof {
            lemma_backtrace_order(*cur);
        }
        let ghost prev = out@;
        let dump = cur.dump.clone();
        out.push(dump);
        proof {
            assert(out@.map_values(|s: String| s@) =~= prev.map_values(|s: String| s@).push(
                cur.dump@,
            ));
            assert(frames_of(*cur)[0] == cur.dump@);
        }
        match &cur.up {
            Some(parent) => {
                proof {
                    assert(frames_of(*cur) =~= seq![cur.dump@] + frames_of(**parent));
                    assert(prev.map_values(|s: String| s@).push(cur.dump@) + frames_of(**parent)
                        =~= prev.map_values(|s: String| s@) + frames_of(*cur));
                }
                cur = parent;
            },
            None => {
                proof {
                    assert(frames_of(*cur) =~= seq![cur.dump@]);
                    assert(out@.map_values(|s: String| s@) =~= frames_of(*innermost));
                }
                done = true;
            },
        }
    }
    out
}

} // verus!
