//! The read marker: building, byte for byte, the request body that
//! asks the service to drop a batch of identifiers from the unread
//! set, and the choice between marking and a dry-run report.

use vstd::prelude::*;

verus! {

/// The ASCII digit for one decimal digit value.
pub open spec fn dec_digit(d: nat) -> u8
    recommends
        d < 10,
{
    (48 + d) as u8
}

/// The decimal rendering of `n`, most significant digit first.
pub open spec fn dec_bytes(n: nat) -> Seq<u8>
    decreases n,
{
    if n < 10 {
        seq![dec_digit(n)]
    } else {
        dec_bytes(n / 10) + seq![dec_digit(n % 10)]
    }
}

/// The identifiers rendered in decimal and joined with commas.
pub open spec fn ids_joined(ids: Seq<u64>) -> Seq<u8>
    decreases ids.len(),
{
    if ids.len() == 0 {
        Seq::<u8>::empty()
    } else if ids.len() == 1 {
        dec_bytes(ids[0] as nat)
    } else {
        ids_joined(ids.drop_last()) + seq![44u8] + dec_bytes(ids.last() as nat)
    }
}

/// The bytes of `{"unread_entries": [`.
pub open spec fn body_prefix() -> Seq<u8> {
    seq![
        123u8,
        34u8,
        117u8,
        110u8,
        114u8,
        101u8,
        97u8,
        100u8,
        95u8,
        101u8,
        110u8,
        116u8,
        114u8,
        105u8,
        101u8,
        115u8,
        34u8,
        58u8,
        32u8,
        91u8,
    ]
}

/// The bytes of `]}`.
pub open spec fn body_suffix() -> Seq<u8> {
    seq![93u8, 125u8]
}

/// The whole request body that marks `ids` as read:
/// `{"unread_entries": [id1,id2,...]}`.
pub open spec fn delete_body(ids: Seq<u64>) -> Seq<u8> {
    body_prefix() + ids_joined(ids) + body_suffix()
}

/// Appends the decimal rendering of `n`.
fn push_dec(out: &mut Vec<u8>, n: u64)
    ensures
        final(out)@ == old(out)@ + dec_bytes(n as nat),
    decreases n,
{
    if n >= 10 {
        push_dec(out, n / 10);
    }
    let d: u8 = (n % 10) as u8 + 48;
    out.push(d);
    proof {
        assert(out@ =~= old(out)@ + dec_bytes(n as nat));
    }
}

/// Builds the body of the request that marks `ids` as read, exactly as
/// the service expects it.
pub fn unread_delete_body(ids: &Vec<u64>) -> (r: Vec<u8>)
    ensures
        r@ == delete_body(ids@),
{
    let mut out: Vec<u8> = Vec::new();
    out.push(123u8);
    out.push(34u8);
    out.push(117u8);
    out.push(110u8);
    out.push(114u8);
    out.push(101u8);
    out.push(97u8);
    out.push(100u8);
    out.push(95u8);
    out.push(101u8);
    out.push(110u8);
    out.push(116u8);
    out.push(114u8);
    out.push(105u8);
    out.push(101u8);
    out.push(115u8);
    out.push(34u8);
    out.push(58u8);
    out.push(32u8);
    out.push(91u8);
    proof {
        assert(out@ =~= body_prefix() + ids_joined(ids@.take(0)));
    }
    let mut i: usize = 0;
    while i < ids.len()
        invariant
            i <= ids.len(),
            out@ == body_prefix() + ids_joined(ids@.take(i as int)),
        decreases ids.len() - i,
    {
        if i > 0 {
            out.push(44u8);
        }
        push_dec(&mut out, ids[i]);
        proof {
            let t1 = ids@.take(i as int + 1);
            if i == 0 {
                assert(ids_joined(t1) == dec_bytes(t1[0] as nat));
                assert(t1[0] == ids@[0]);
            } else {
                assert(t1.drop_last() =~= ids@.take(i as int));
                assert(t1.last() == ids@[i as int]);
            }
            assert(out@ =~= body_prefix() + ids_joined(t1));
        }
        i = i + 1;
    }
    proof {
        assert(ids@.take(ids@.len() as int) =~= ids@);
    }
    out.push(93u8);
    out.push(125u8);
    proof {
        assert(out@ =~= delete_body(ids@));
    }
    out
}

/// What one run does after classification: report the count in a dry
/// run, or send the marking request.
#[derive(Debug)]
pub enum RunAction {
    /// Dry run: report how many entries would have been marked.
    Report { stale_count: usize },
    /// Send the marking request with exactly this body.
    MarkAsRead { body: Vec<u8> },
}

/// Chooses the final step of a run. In a dry run no marking request is
/// built, whatever was found; otherwise the request body carries
/// exactly the stale identifiers, in order.
pub fn decide_action(stale: &Vec<u64>, dry_run: bool) -> (r: RunAction)
    ensures
        match r {
            RunAction::Report { stale_count } => dry_run && stale_count == stale@.len(),
            RunAction::MarkAsRead { body } => !dry_run && body@ == delete_body(stale@),
        },
{
    if dry_run {
        RunAction::Report { stale_count: stale.len() }
    } else {
        RunAction::MarkAsRead { body: unread_delete_body(stale) }
    }
}

} // verus!
