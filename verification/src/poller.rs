//! The orchestrator poller's decision logic.
//!
//! One orchestrator URL is stripped of its scheme (so the remaining
//! `host:port` can be resolved), the host is resolved to all of its network
//! addresses, and the pending-transactions endpoint is fetched once per
//! address. Resolution and transport live with the caller; this module fixes
//! how the URL is rewritten and how the per-address fetch results combine:
//! every request served by a reachable address is kept, in address order and
//! in array order within an address, and an unreachable address contributes
//! nothing and disturbs nothing.

use vstd::prelude::*;

use crate::types::GaslessTransaction;

verus! {

/// The bytes of `"http://"`.
pub open spec fn http_prefix() -> Seq<u8> {
    seq![104u8, 116u8, 116u8, 112u8, 58u8, 47u8, 47u8]
}

/// The bytes of `"https://"`.
pub open spec fn https_prefix() -> Seq<u8> {
    seq![104u8, 116u8, 116u8, 112u8, 115u8, 58u8, 47u8, 47u8]
}

/// A URL with its scheme prefix removed: `"http://"` or `"https://"` is
/// dropped, anything else is kept whole.
pub open spec fn spec_strip_scheme(u: Seq<u8>) -> Seq<u8> {
    if u.len() >= 7 && u.subrange(0, 7) == http_prefix() {
        u.subrange(7, u.len() as int)
    } else if u.len() >= 8 && u.subrange(0, 8) == https_prefix() {
        u.subrange(8, u.len() as int)
    } else {
        u
    }
}

/// Strips a leading `"http://"` or `"https://"` from a URL given as bytes,
/// leaving a URL without either scheme unchanged.
pub fn strip_url_scheme(url: &Vec<u8>) -> (r: Vec<u8>)
    ensures
        r@ == spec_strip_scheme(url@),
{
    let mut skip: usize = 0;
    if url.len() >= 7 && url[0] == 104 && url[1] == 116 && url[2] == 116 && url[3] == 112
        && url[4] == 58 && url[5] == 47 && url[6] == 47 {
        skip = 7;
        proof {
            assert(url@.subrange(0, 7) =~= http_prefix());
        }
    } else if url.len() >= 8 && url[0] == 104 && url[1] == 116 && url[2] == 116 && url[3] == 112
        && url[4] == 115 && url[5] == 58 && url[6] == 47 && url[7] == 47 {
        skip = 8;
        proof {
            assert(url@.subrange(0, 8) =~= https_prefix());
            assert(url@.subrange(0, 7)[4] != http_prefix()[4]);
        }
    } else {
        proof {
            if url@.len() >= 7 && url@.subrange(0, 7) == http_prefix() {
                assert(url@[4] == http_prefix()[4]);
                assert(false);
            }
            if url@.len() >= 8 && url@.subrange(0, 8) == https_prefix() {
                assert(url@[4] == https_prefix()[4]);
                assert(false);
            }
        }
    }
    let mut out: Vec<u8> = Vec::new();
    let mut i: usize = skip;
    while i < url.len()
        invariant
            skip <= i <= url.len(),
            out@ == url@.subrange(skip as int, i as int),
        decreases url.len() - i,
    {
        out.push(url[i]);
        proof {
            assert(url@.subrange(skip as int, i + 1) =~= url@.subrange(skip as int, i as int).push(
                url@[i as int],
            ));
        }
        i = i + 1;
    }
    proof {
        assert(out@ =~= url@.subrange(skip as int, url@.len() as int));
        if skip == 0 {
            assert(url@.subrange(0, url@.len() as int) =~= url@);
        }
    }
    out
}

/// The requests that a sequence of per-address fetches yields: the fetched
/// arrays concatenated in address order, with failed addresses contributing
/// nothing.
pub open spec fn flatten_fetches(s: Seq<Option<Vec<GaslessTransaction>>>) -> Seq<
    GaslessTransaction,
>
    decreases s.len(),
{
    if s.len() == 0 {
        Seq::empty()
    } else {
        (match s[0] {
            Some(v) => v@,
            None => Seq::empty(),
        }) + flatten_fetches(s.subrange(1, s.len() as int))
    }
}

/// Combines the per-address fetch results of one orchestrator into the
/// sequence of requests to process: every request of every reachable
/// address, in address order and in array order within each address. An
/// unreachable address (`None`) is passed over and costs nothing else.
pub fn collect_pending(fetches: Vec<Option<Vec<GaslessTransaction>>>) -> (r: Vec<
    GaslessTransaction,
>)
    ensures
        r@ == flatten_fetches(fetches@),
{
    let ghost all = fetches@;
    let mut rest = fetches;
    let mut out: Vec<GaslessTransaction> = Vec::new();
    while rest.len() > 0
        invariant
            out@ + flatten_fetches(rest@) == flatten_fetches(all),
        decreases rest.len(),
    {
        let ghost before = rest@;
        let first = rest.remove(0);
        proof {
            assert(rest@ =~= before.subrange(1, before.len() as int));
        }
        match first {
            Some(mut v) => {
                proof {
                    assert(out@ + (v@ + flatten_fetches(rest@)) =~= (out@ + v@) + flatten_fetches(
                        rest@,
                    ));
                }
                out.append(&mut v);
            },
            None => {
                proof {
                    assert(out@ + (Seq::<GaslessTransaction>::empty() + flatten_fetches(rest@))
                        =~= out@ + flatten_fetches(rest@));
                }
            },
        }
    }
    proof {
        assert(out@ + flatten_fetches(rest@) =~= out@);
    }
    out
}

/// An unreachable address changes nothing for the others: dropping a failed
/// fetch from the sequence leaves the combined requests exactly as they
/// were, so every request served by a reachable address is still processed.
pub proof fn lemma_failed_fetch_ignored(s: Seq<Option<Vec<GaslessTransaction>>>, i: int)
    requires
        0 <= i < s.len(),
        s[i] is None,
    ensures
        flatten_fetches(s) == flatten_fetches(s.remove(i)),
    decreases s.len(),
{
    let tail = s.subrange(1, s.len() as int);
    if i == 0 {
        assert(s.remove(0) =~= tail);
        assert(flatten_fetches(s) == Seq::<GaslessTransaction>::empty() + flatten_fetches(tail));
        assert(Seq::<GaslessTransaction>::empty() + flatten_fetches(tail) =~= flatten_fetches(
            tail,
        ));
    } else {
        lemma_failed_fetch_ignored(tail, i - 1);
        assert(s.remove(i).subrange(1, s.remove(i).len() as int) =~= tail.remove(i - 1));
        assert(s.remove(i)[0] == s[0]);
    }
}

} // verus!
