//! The background manager that rejoins a saved network when the station is offline.
use vstd::prelude::*;

use crate::text::str_eq;
use crate::wifi::connection::ConnectRequest;
use crate::wifi::scanner::WifiNetwork;

verus! {

/// Whether a scan found a network named `ssid`.
pub open spec fn ssid_listed(available: Seq<WifiNetwork>, ssid: Seq<char>) -> bool {
    exists|j: int| 0 <= j < available.len() && #[trigger] available[j].ssid@ == ssid
}

/// The positions of the saved networks that the scan found, in saved order: the
/// networks the manager tries, one after the other, until one connects.
pub open spec fn candidates(saved: Seq<ConnectRequest>, available: Seq<WifiNetwork>) -> Seq<int>
    decreases saved.len(),
{
    if saved.len() == 0 {
        Seq::empty()
    } else {
        let prev = candidates(saved.drop_last(), available);
        if ssid_listed(available, saved.last().ssid@) {
            prev.push(saved.len() - 1)
        } else {
            prev
        }
    }
}

fn listed(available: &[WifiNetwork], ssid: &str) -> (b: bool)
    ensures
        b == ssid_listed(available@, ssid@),
{
    let mut j: usize = 0;
    while j < available.len()
        invariant
            j <= available.len(),
            forall|k: int| 0 <= k < j ==> available@[k].ssid@ != ssid@,
        decreases available.len() - j,
    {
        if str_eq(available[j].ssid.as_str(), ssid) {
            assert(available@[j as int].ssid@ == ssid@);
            return true;
        }
        j = j + 1;
    }
    false
}

/// The positions of the saved networks to try, in order (see `candidates`).
pub fn networks_to_try(saved: &[ConnectRequest], available: &[WifiNetwork]) -> (r: Vec<usize>)
    ensures
        r@.len() == candidates(saved@, available@).len(),
        forall|k: int| 0 <= k < r@.len() ==> r@[k] as int == #[trigger] candidates(saved@, available@)[k],
{
    let mut r: Vec<usize> = Vec::new();
    let mut i: usize = 0;
    assert(saved@.take(0) =~= Seq::<ConnectRequest>::empty());
    while i < saved.len()
        invariant
            i <= saved.len(),
            r@.len() == candidates(saved@.take(i as int), available@).len(),
            forall|k: int|
                0 <= k < r@.len() ==> r@[k] as int == #[trigger] candidates(
                    saved@.take(i as int),
                    available@,
                )[k],
        decreases saved.len() - i,
    {
        let ghost prev = candidates(saved@.take(i as int), available@);
        assert(saved@.take(i + 1).drop_last() =~= saved@.take(i as int));
        assert(saved@.take(i + 1).last() == saved@[i as int]);
        if listed(available, saved[i].ssid.as_str()) {
            r.push(i);
            assert(candidates(saved@.take(i + 1), available@) == prev.push(i as int));
        }
        i = i + 1;
    }
    assert(saved@.take(saved.len() as int) =~= saved@);
    r
}

/// One round of rejoining: the saved networks to try, in order, how many have been
/// handed out, and whether one of them connected.
pub struct RejoinRound {
    pub order: Vec<usize>,
    pub next: usize,
    pub joined: bool,
}

impl RejoinRound {
    /// The round is consistent: no more networks are handed out than there are.
    pub open spec fn wf(&self) -> bool {
        self.next <= self.order@.len()
    }
}

/// A new round over the saved networks that the scan found (see `candidates`).
pub fn start_rejoin(saved: &[ConnectRequest], available: &[WifiNetwork]) -> (r: RejoinRound)
    ensures
        r.wf(),
        r.next == 0,
        !r.joined,
        r.order@.len() == candidates(saved@, available@).len(),
        forall|k: int| 0 <= k < r.order@.len() ==> r.order@[k] as int == #[trigger] candidates(saved@, available@)[k],
{
    RejoinRound { order: networks_to_try(saved, available), next: 0, joined: false }
}

/// The next saved network to try: none once one has connected or all have been tried.
pub fn next_network(r: &mut RejoinRound) -> (n: Option<usize>)
    requires
        old(r).wf(),
    ensures
        final(r).wf(),
        final(r).order == old(r).order,
        final(r).joined == old(r).joined,
        old(r).joined || old(r).next >= old(r).order@.len() ==> n is None && final(r).next == old(r).next,
        !old(r).joined && old(r).next < old(r).order@.len() ==> n == Some(old(r).order@[old(r).next as int])
            && final(r).next == old(r).next + 1,
{
    if r.joined || r.next >= r.order.len() {
        None
    } else {
        let n = r.order[r.next];
        r.next = r.next + 1;
        Some(n)
    }
}

/// Records whether the last network tried connected.
pub fn report_attempt(r: &mut RejoinRound, connected: bool)
    requires
        old(r).wf(),
    ensures
        final(r).wf(),
        final(r).order == old(r).order,
        final(r).next == old(r).next,
        final(r).joined == (old(r).joined || connected),
{
    r.joined = r.joined || connected;
}

/// The saved networks without those named `ssid`, in order.
pub open spec fn without_ssid(saved: Seq<ConnectRequest>, ssid: Seq<char>) -> Seq<ConnectRequest>
    decreases saved.len(),
{
    if saved.len() == 0 {
        Seq::empty()
    } else {
        (if saved[0].ssid@ == ssid {
            Seq::empty()
        } else {
            seq![saved[0]]
        }) + without_ssid(saved.skip(1), ssid)
    }
}

/// Removes every saved network named `ssid`, keeping the others in order.
pub fn forget_network(saved: &mut Vec<ConnectRequest>, ssid: &str)
    ensures
        final(saved)@ == without_ssid(old(saved)@, ssid@),
{
    let mut kept: Vec<ConnectRequest> = Vec::new();
    let ghost all = saved@;
    assert(kept@ + without_ssid(saved@, ssid@) =~= without_ssid(all, ssid@));
    while saved.len() > 0
        invariant
            kept@ + without_ssid(saved@, ssid@) == without_ssid(all, ssid@),
        decreases saved.len(),
    {
        let ghost before = saved@;
        let r = saved.remove(0);
        assert(before.skip(1) =~= saved@);
        if str_eq(r.ssid.as_str(), ssid) {
            assert(kept@ + without_ssid(saved@, ssid@) =~= without_ssid(all, ssid@));
        } else {
            let ghost k0 = kept@;
            kept.push(r);
            assert(k0 + (seq![before[0]] + without_ssid(saved@, ssid@)) =~= kept@ + without_ssid(saved@, ssid@));
        }
    }
    assert(without_ssid(saved@, ssid@) =~= Seq::<ConnectRequest>::empty());
    assert(kept@ + Seq::<ConnectRequest>::empty() =~= kept@);
    *saved = kept;
}

/// Saves `net`, replacing any saved network with the same name: the others keep
/// their order and `net` comes last.
pub fn remember_network(saved: &mut Vec<ConnectRequest>, net: ConnectRequest)
    ensures
        final(saved)@ == without_ssid(old(saved)@, net.ssid@).push(net),
{
    let ssid = net.ssid.clone();
    forget_network(saved, ssid.as_str());
    saved.push(net);
}

/// After forgetting a name, no saved network has it, and every other saved network
/// is still there.
pub proof fn law_forget_removes_only_that_name(saved: Seq<ConnectRequest>, ssid: Seq<char>)
    ensures
        forall|i: int| 0 <= i < without_ssid(saved, ssid).len() ==> #[trigger] without_ssid(saved, ssid)[i].ssid@ != ssid,
        forall|i: int| 0 <= i < saved.len() && saved[i].ssid@ != ssid ==> without_ssid(saved, ssid).contains(#[trigger] saved[i]),
    decreases saved.len(),
{
    if saved.len() > 0 {
        law_forget_removes_only_that_name(saved.skip(1), ssid);
        let head: Seq<ConnectRequest> = if saved[0].ssid@ == ssid { Seq::empty() } else { seq![saved[0]] };
        let rest = without_ssid(saved.skip(1), ssid);
        assert forall|i: int| 0 <= i < without_ssid(saved, ssid).len() implies #[trigger] without_ssid(saved, ssid)[i].ssid@ != ssid by {
            if i >= head.len() {
                assert(without_ssid(saved, ssid)[i] == rest[i - head.len()]);
            }
        }
        assert forall|i: int| 0 <= i < saved.len() && saved[i].ssid@ != ssid implies without_ssid(saved, ssid).contains(#[trigger] saved[i]) by {
            if i == 0 {
                assert(without_ssid(saved, ssid)[0] == saved[0]);
            } else {
                assert(saved.skip(1)[i - 1] == saved[i]);
                let j = choose|j: int| 0 <= j < rest.len() && rest[j] == saved[i];
                assert(without_ssid(saved, ssid)[j + head.len()] == saved[i]);
            }
        }
    }
}

/// How long the manager sleeps after a round, in seconds: 30 when the station was
/// connected, 15 after it rejoined a network, 10 when no saved network connected.
pub fn manager_pause_secs(was_connected: bool, rejoined: bool) -> (s: u64)
    ensures
        s == if was_connected {
            30u64
        } else if rejoined {
            15u64
        } else {
            10u64
        },
{
    if was_connected {
        30
    } else if rejoined {
        15
    } else {
        10
    }
}

/// The manager only tries networks that are both saved and in range, and tries
/// each at most once, in saved order.
pub proof fn law_candidates_saved_and_in_range(saved: Seq<ConnectRequest>, available: Seq<WifiNetwork>)
    ensures
        forall|k: int|
            0 <= k < candidates(saved, available).len() ==> 0 <= #[trigger] candidates(saved, available)[k]
                < saved.len() && ssid_listed(available, saved[candidates(saved, available)[k]].ssid@),
        forall|k: int, l: int|
            0 <= k < l < candidates(saved, available).len() ==> #[trigger] candidates(saved, available)[k]
                < #[trigger] candidates(saved, available)[l],
    decreases saved.len(),
{
    if saved.len() > 0 {
        law_candidates_saved_and_in_range(saved.drop_last(), available);
        let prev = candidates(saved.drop_last(), available);
        assert forall|k: int| 0 <= k < prev.len() implies saved[prev[k]] == saved.drop_last()[prev[k]] by {}
    }
}

} // verus!
