//! The compute cores of the four foundational sub-protocols: random
//! secret-share generation, commit-open broadcast, barrier synchronization,
//! and authenticated-bit opening. Each core is a pure function (or a small
//! state machine) from the values exchanged on the wire to the protocol's
//! result; the asynchronous fan-out that moves those values sits outside
//! this library.

use vstd::prelude::*;
use vstd::string::StringExecFns;
use crate::auth_bits::Abits;
use crate::base_func::{
    BaseFunc, CheatDetectedError, CheatOrUnexpectedError, FuncContext, FuncId, PartyId, SessionId,
    UnexpectedError,
};
use crate::field::{ConstInt, RandElement, Ring};
use crate::polynomial::{spec_eval, FixedPolynomial};
use crate::render::{decimal_string, hex_string, spec_decimal, spec_hex};

verus! {

/// Every party in `parties` other than `me`, in order.
pub open spec fn spec_peers(parties: Seq<PartyId>, me: PartyId) -> Seq<PartyId> {
    parties.filter(|p: PartyId| p != me)
}

/// Selects the peers of `me`: every listed party but `me`, order kept.
pub fn other_parties(parties: &Vec<PartyId>, me: PartyId) -> (r: Vec<PartyId>)
    ensures
        r@ == spec_peers(parties@, me),
{
    let mut out: Vec<PartyId> = Vec::new();
    let mut i: usize = 0;
    proof {
        reveal(Seq::filter);
        assert(parties@.take(0int) =~= Seq::<PartyId>::empty());
    }
    while i < parties.len()
        invariant
            i <= parties@.len(),
            out@ == spec_peers(parties@.take(i as int), me),
        decreases parties@.len() - i,
    {
        let p = parties[i];
        proof {
            reveal(Seq::filter);
            assert(parties@.take(i + 1).drop_last() =~= parties@.take(i as int));
            assert(parties@.take(i + 1).last() == parties@[i as int]);
        }
        if p != me {
            out.push(p);
        }
        i = i + 1;
    }
    proof {
        assert(parties@.take(parties@.len() as int) =~= parties@);
    }
    out
}

/// The all-to-all barrier, seen from one party: a one-byte ping goes to
/// every peer and one is awaited from every peer; the barrier is passed
/// once every peer's round trip has completed. A peer that never
/// participates leaves the barrier pending forever: no timeout is built in,
/// the caller must impose one.
pub struct SyncSession {
    peers: Vec<PartyId>,
    done: Vec<bool>,
}

impl SyncSession {
    /// The peers the barrier waits on.
    pub closed spec fn spec_session_peers(&self) -> Seq<PartyId> {
        self.peers@
    }

    /// Which peers' round trips have completed.
    pub closed spec fn spec_done(&self) -> Seq<bool> {
        self.done@
    }

    pub open spec fn wf(&self) -> bool {
        self.spec_done().len() == self.spec_session_peers().len()
    }

    /// Opens the barrier for `party_id` among `parties`: one pending round
    /// trip per peer.
    pub fn new(party_id: PartyId, parties: &Vec<PartyId>) -> (r: Self)
        ensures
            r.wf(),
            r.spec_session_peers() == spec_peers(parties@, party_id),
            forall|j: int| 0 <= j < r.spec_done().len() ==> !r.spec_done()[j],
    {
        let peers = other_parties(parties, party_id);
        let mut done: Vec<bool> = Vec::new();
        let n = peers.len();
        let mut j: usize = 0;
        while j < n
            invariant
                j <= n,
                done@.len() == j,
                forall|k: int| 0 <= k < done@.len() ==> !done@[k],
            decreases n - j,
        {
            done.push(false);
            j = j + 1;
        }
        SyncSession { peers, done }
    }

    /// The peers to exchange pings with, in order.
    pub fn peers(&self) -> (r: &Vec<PartyId>)
        ensures
            r@ == self.spec_session_peers(),
    {
        &self.peers
    }

    /// The one-byte ping sent to every peer.
    pub fn ping(&self) -> (r: Vec<u8>)
        ensures
            r@ == seq![0u8],
    {
        let mut m: Vec<u8> = Vec::new();
        m.push(0u8);
        proof {
            assert(m@ =~= seq![0u8]);
        }
        m
    }

    /// Records that peer index `j`'s round trip completed.
    pub fn record_done(&mut self, j: usize)
        requires
            old(self).wf(),
            j < old(self).spec_session_peers().len(),
        ensures
            final(self).wf(),
            final(self).spec_session_peers() == old(self).spec_session_peers(),
            final(self).spec_done() == old(self).spec_done().update(j as int, true),
    {
        self.done.set(j, true);
    }

    /// Whether every peer's round trip has completed.
    pub fn is_complete(&self) -> (r: bool)
        requires
            self.wf(),
        ensures
            r <==> (forall|j: int| 0 <= j < self.spec_done().len() ==> self.spec_done()[j]),
    {
        let mut j: usize = 0;
        while j < self.done.len()
            invariant
                j <= self.spec_done().len(),
                forall|k: int| 0 <= k < j ==> self.spec_done()[k],
            decreases self.spec_done().len() - j,
        {
            if !self.done[j] {
                return false;
            }
            j = j + 1;
        }
        true
    }
}

/// The byte views of a batch of messages.
pub open spec fn spec_msg_views(msgs: Seq<Vec<u8>>) -> Seq<Seq<u8>> {
    msgs.map_values(|m: Vec<u8>| m@)
}

/// The coefficient views of a batch of polynomials.
pub open spec fn spec_coeffs<T: Ring>(polys: Seq<FixedPolynomial<T>>) -> Seq<Seq<T>> {
    polys.map_values(|p: FixedPolynomial<T>| p.coeffs@)
}

/// The buffer a party sends for one share exchange: for each sampled
/// polynomial in order, the fixed-width record of its value at `x`.
pub open spec fn spec_share_msg<T: Ring>(polys: Seq<Seq<T>>, x: T) -> Seq<u8>
    decreases polys.len(),
{
    if polys.len() == 0 {
        Seq::empty()
    } else {
        spec_share_msg(polys.drop_last(), x) + spec_eval(polys.last(), x).spec_serialized()
    }
}

/// Packs the evaluations of `polys` at `point` into one buffer, one
/// fixed-width record per polynomial.
fn share_msg_for<T: Ring>(polys: &Vec<FixedPolynomial<T>>, point: &T) -> (r: Vec<u8>)
    requires
        forall|k: int| 0 <= k < polys@.len() ==> (#[trigger] polys@[k]).wf(),
        point.wf(),
        polys@.len() * T::spec_bytes() <= usize::MAX,
    ensures
        r@ == spec_share_msg(spec_coeffs(polys@), *point),
        r@.len() == polys@.len() * T::spec_bytes(),
{
    let mut out: Vec<u8> = Vec::new();
    let n = polys.len();
    let mut k: usize = 0;
    while k < n
        invariant
            k <= n,
            n == polys@.len(),
            forall|i: int| 0 <= i < polys@.len() ==> (#[trigger] polys@[i]).wf(),
            point.wf(),
            n * T::spec_bytes() <= usize::MAX,
            out@ == spec_share_msg(spec_coeffs(polys@).take(k as int), *point),
            out@.len() == k * T::spec_bytes(),
        decreases n - k,
    {
        let y = polys[k].evaluate(point);
        proof {
            y.lemma_serialized_len();
            assert((k + 1) * T::spec_bytes() <= n * T::spec_bytes()) by (nonlinear_arith)
                requires
                    k + 1 <= n,
                    T::spec_bytes() >= 0,
            ;
            assert((k + 1) * T::spec_bytes() == k * T::spec_bytes() + T::spec_bytes())
                by (nonlinear_arith);
            assert(spec_coeffs(polys@).take(k + 1).drop_last() =~= spec_coeffs(polys@).take(
                k as int,
            ));
        }
        y.to_bytes(&mut out);
        k = k + 1;
    }
    proof {
        assert(spec_coeffs(polys@).take(n as int) =~= spec_coeffs(polys@));
    }
    out
}

/// One party's local state for a random-share exchange: the sampled
/// polynomials, this party's baseline shares (its own evaluations), and the
/// buffer to send to each peer.
pub struct RandomSharesRound<T> {
    pub polys: Vec<FixedPolynomial<T>>,
    pub my_shares: Vec<T>,
    pub peer_msgs: Vec<Vec<u8>>,
}

/// Samples `num` random degree-`t-1` polynomials, evaluates them at this
/// party's own point for its baseline shares, and packs, for every peer,
/// the evaluations at that peer's point into the buffer to send it.
pub fn random_shares_prepare<T: Ring + RandElement>(
    num: usize,
    my_id: PartyId,
    parties: &Vec<PartyId>,
    t: usize,
) -> (r: RandomSharesRound<T>)
    requires
        t >= 1,
        num * T::spec_bytes() <= usize::MAX,
    ensures
        r.polys@.len() == num,
        forall|k: int|
            0 <= k < num ==> (#[trigger] r.polys@[k]).wf() && r.polys@[k].coeffs@.len() == t,
        r.my_shares@.len() == num,
        forall|k: int|
            0 <= k < num ==> #[trigger] r.my_shares@[k] == spec_eval(
                r.polys@[k].coeffs@,
                T::spec_from_u64(my_id),
            ) && r.my_shares@[k].wf(),
        r.peer_msgs@.len() == spec_peers(parties@, my_id).len(),
        forall|j: int|
            0 <= j < r.peer_msgs@.len() ==> (#[trigger] r.peer_msgs@[j])@ == spec_share_msg(
                spec_coeffs(r.polys@),
                T::spec_from_u64(spec_peers(parties@, my_id)[j]),
            ) && r.peer_msgs@[j]@.len() == num * T::spec_bytes(),
{
    let mut polys: Vec<FixedPolynomial<T>> = Vec::new();
    let mut k: usize = 0;
    while k < num
        invariant
            k <= num,
            t >= 1,
            polys@.len() == k,
            forall|i: int|
                0 <= i < polys@.len() ==> (#[trigger] polys@[i]).wf() && polys@[i].coeffs@.len()
                    == t,
        decreases num - k,
    {
        polys.push(FixedPolynomial::<T>::rand_polynomial(t - 1));
        k = k + 1;
    }
    let my_point = T::from_u64(my_id);
    let mut my_shares: Vec<T> = Vec::new();
    let mut k2: usize = 0;
    while k2 < num
        invariant
            k2 <= num,
            num == polys@.len(),
            my_point == T::spec_from_u64(my_id),
            my_point.wf(),
            forall|i: int|
                0 <= i < polys@.len() ==> (#[trigger] polys@[i]).wf() && polys@[i].coeffs@.len()
                    == t,
            my_shares@.len() == k2,
            forall|i: int|
                0 <= i < my_shares@.len() ==> #[trigger] my_shares@[i] == spec_eval(
                    polys@[i].coeffs@,
                    T::spec_from_u64(my_id),
                ) && my_shares@[i].wf(),
        decreases num - k2,
    {
        my_shares.push(polys[k2].evaluate(&my_point));
        k2 = k2 + 1;
    }
    let peers = other_parties(parties, my_id);
    let mut peer_msgs: Vec<Vec<u8>> = Vec::new();
    let mut j: usize = 0;
    while j < peers.len()
        invariant
            j <= peers@.len(),
            peers@ == spec_peers(parties@, my_id),
            num == polys@.len(),
            num * T::spec_bytes() <= usize::MAX,
            forall|i: int|
                0 <= i < polys@.len() ==> (#[trigger] polys@[i]).wf() && polys@[i].coeffs@.len()
                    == t,
            peer_msgs@.len() == j,
            forall|i: int|
                0 <= i < peer_msgs@.len() ==> (#[trigger] peer_msgs@[i])@ == spec_share_msg(
                    spec_coeffs(polys@),
                    T::spec_from_u64(peers@[i]),
                ) && peer_msgs@[i]@.len() == num * T::spec_bytes(),
        decreases peers@.len() - j,
    {
        let point = T::from_u64(peers[j]);
        peer_msgs.push(share_msg_for(&polys, &point));
        j = j + 1;
    }
    RandomSharesRound { polys, my_shares, peer_msgs }
}

/// The share a party ends with after folding every peer's buffer into its
/// baseline: position `k` holds the baseline plus, per received buffer in
/// order, the deserialized record at position `k`.
pub open spec fn spec_combined<T: Ring>(base: Seq<T>, msgs: Seq<Seq<u8>>, k: int) -> T
    decreases msgs.len(),
{
    if msgs.len() == 0 {
        base[k]
    } else {
        spec_combined(base, msgs.drop_last(), k).spec_add(
            T::spec_deserialized(
                msgs.last().subrange(k * T::spec_bytes(), (k + 1) * T::spec_bytes()),
            ),
        )
    }
}

/// Folds every peer's share buffer into this party's baseline shares,
/// element-wise; the sum of all parties' contributions at this party's
/// point. Every buffer must carry exactly one record per share, else the
/// exchange ends with an ordinary error stamped for `caller`.
pub fn random_shares_combine<T: Ring>(
    my_shares: Vec<T>,
    received: &Vec<Vec<u8>>,
    my_id: PartyId,
    caller: FuncId,
) -> (r: Result<Vec<T>, UnexpectedError>)
    requires
        forall|k: int| 0 <= k < my_shares@.len() ==> (#[trigger] my_shares@[k]).wf(),
        my_shares@.len() * T::spec_bytes() <= usize::MAX,
    ensures
        r is Ok <==> (forall|j: int|
            0 <= j < received@.len() ==> (#[trigger] received@[j])@.len() == my_shares@.len()
                * T::spec_bytes()),
        match r {
            Ok(shares) => {
                &&& shares@.len() == my_shares@.len()
                &&& forall|k: int|
                    0 <= k < shares@.len() ==> #[trigger] shares@[k] == spec_combined(
                        my_shares@,
                        spec_msg_views(received@),
                        k,
                    ) && shares@[k].wf()
            },
            Err(e) => {
                &&& e.ctx.party == my_id
                &&& e.ctx.func == caller
            },
        },
{
    let num = my_shares.len();
    let record: usize = T::bytes();
    let expected = num * record;
    let mut j: usize = 0;
    while j < received.len()
        invariant
            j <= received@.len(),
            expected == my_shares@.len() * T::spec_bytes(),
            forall|i: int|
                0 <= i < j ==> (#[trigger] received@[i])@.len() == my_shares@.len()
                    * T::spec_bytes(),
        decreases received@.len() - j,
    {
        if received[j].len() != expected {
            return Err(
                UnexpectedError {
                    ctx: FuncContext { party: my_id, func: caller, sid: SessionId::new(caller) },
                    msg: String::from_str("received a share buffer of the wrong size"),
                },
            );
        }
        j = j + 1;
    }
    let mut shares = my_shares;
    let ghost base = shares@;
    let ghost views = spec_msg_views(received@);
    let mut p: usize = 0;
    while p < received.len()
        invariant
            p <= received@.len(),
            views == spec_msg_views(received@),
            shares@.len() == base.len(),
            num == base.len(),
            record as nat == T::spec_bytes(),
            expected == base.len() * T::spec_bytes(),
            forall|i: int| 0 <= i < received@.len() ==> (#[trigger] received@[i])@.len() == expected,
            forall|k: int|
                0 <= k < shares@.len() ==> #[trigger] shares@[k] == spec_combined(
                    base,
                    views.take(p as int),
                    k,
                ) && shares@[k].wf(),
        decreases received@.len() - p,
    {
        let buf = &received[p];
        let mut k: usize = 0;
        while k < num
            invariant
                k <= num,
                p < received@.len(),
                views == spec_msg_views(received@),
                shares@.len() == base.len(),
                num == base.len(),
                record as nat == T::spec_bytes(),
                expected == base.len() * T::spec_bytes(),
                buf@ == views[p as int],
                buf@.len() == expected,
                forall|i: int|
                    0 <= i < k ==> #[trigger] shares@[i] == spec_combined(
                        base,
                        views.take(p + 1),
                        i,
                    ) && shares@[i].wf(),
                forall|i: int|
                    k <= i < shares@.len() ==> #[trigger] shares@[i] == spec_combined(
                        base,
                        views.take(p as int),
                        i,
                    ) && shares@[i].wf(),
            decreases num - k,
        {
            proof {
                assert((k + 1) * T::spec_bytes() <= num * T::spec_bytes() && k * T::spec_bytes()
                    >= 0 && (k + 1) * T::spec_bytes() == k * T::spec_bytes() + T::spec_bytes())
                    by (nonlinear_arith)
                    requires
                        k < num,
                        T::spec_bytes() >= 0,
                ;
            }
            let lo = k * record;
            let hi = lo + record;
            let piece = vstd::slice::slice_subrange(buf.as_slice(), lo, hi);
            let v = T::from_bytes(piece);
            let updated = shares[k].add_elem(&v);
            shares.set(k, updated);
            proof {
                assert(views.take(p + 1).drop_last() =~= views.take(p as int));
                assert(views.take(p + 1).last() == views[p as int]);
            }
            k = k + 1;
        }
        p = p + 1;
    }
    proof {
        assert(views.take(received@.len() as int) =~= views);
    }
    Ok(shares)
}

/// The diagnostic carried by a MAC-mismatch cheat report: the index of the
/// first bit whose tag disagreed, the tag the peer sent, and the tag it was
/// supposed to send, both rendered from their fixed-width byte records.
pub open spec fn spec_mac_fail_msg<F: Ring>(i: nat, got: F, expected: F) -> Seq<char> {
    "check mac "@ + spec_decimal(i) + " failed ("@ + spec_hex(got.spec_serialized()) + " != "@
        + spec_hex(expected.spec_serialized()) + ")"@
}

fn mac_fail_msg<F: Ring>(i: usize, got: &F, expected: &F) -> (m: String)
    requires
        F::spec_bytes() <= usize::MAX,
    ensures
        m@ == spec_mac_fail_msg(i as nat, *got, *expected),
{
    let mut m = String::from_str("check mac ");
    let digits = decimal_string(i as u64);
    m.append(digits.as_str());
    m.append(" failed (");
    let mut got_bytes: Vec<u8> = Vec::new();
    got.to_bytes(&mut got_bytes);
    let got_hex = hex_string(&got_bytes);
    m.append(got_hex.as_str());
    m.append(" != ");
    let mut expected_bytes: Vec<u8> = Vec::new();
    expected.to_bytes(&mut expected_bytes);
    let expected_hex = hex_string(&expected_bytes);
    m.append(expected_hex.as_str());
    m.append(")");
    m
}

/// The byte a bit goes on the wire as.
pub open spec fn spec_bit_byte(b: bool) -> u8 {
    if b {
        1u8
    } else {
        0u8
    }
}

/// The bit-value section of an authenticated-bit message.
pub open spec fn spec_bits_bytes(bits: Seq<bool>) -> Seq<u8> {
    bits.map_values(|b: bool| spec_bit_byte(b))
}

/// The MAC section of an authenticated-bit message: the tags' fixed-width
/// records in bit order.
pub open spec fn spec_macs_bytes<F: Ring>(macs: Seq<F>) -> Seq<u8>
    decreases macs.len(),
{
    if macs.len() == 0 {
        Seq::empty()
    } else {
        spec_macs_bytes(macs.drop_last()) + macs.last().spec_serialized()
    }
}

/// The buffer one party sends a peer when opening a batch: for `n` bits,
/// `n` bit bytes followed by `n` fixed-width MAC records.
pub open spec fn spec_abits_msg<F: Ring>(bits: Seq<bool>, macs: Seq<F>) -> Seq<u8> {
    spec_bits_bytes(bits) + spec_macs_bytes(macs)
}

/// The bit a peer's message claims at position `i`.
pub open spec fn spec_claimed_bit(msg: Seq<u8>, i: int) -> bool {
    msg[i] == 1
}

/// The MAC a peer's message carries for position `i`, when the message
/// opens `n` bits.
pub open spec fn spec_claimed_mac<F: Ring>(msg: Seq<u8>, n: int, i: int) -> F {
    F::spec_deserialized(
        msg.subrange(n + i * F::spec_bytes(), n + (i + 1) * F::spec_bytes()),
    )
}

/// The tag a claimed bit must carry: the locally-held key, plus the global
/// offset exactly when the claimed bit is one.
pub open spec fn spec_expected_mac<F: Ring>(key: F, delta: F, claimed: bool) -> F {
    if claimed {
        key.spec_add(delta)
    } else {
        key
    }
}

/// Whether position `i` of a peer's message verifies against the local
/// keys.
pub open spec fn spec_mac_ok<F: Ring>(keys: Seq<F>, delta: F, msg: Seq<u8>, i: int) -> bool {
    spec_claimed_mac::<F>(msg, keys.len() as int, i) == spec_expected_mac(
        keys[i],
        delta,
        spec_claimed_bit(msg, i),
    )
}

/// Whether every position of a peer's message verifies.
pub open spec fn spec_peer_ok<F: Ring>(keys: Seq<F>, delta: F, msg: Seq<u8>) -> bool {
    forall|i: int| 0 <= i < keys.len() ==> spec_mac_ok(keys, delta, msg, i)
}

/// The opened bit at position `i`: this party's share, exclusive-or the
/// bit each peer's message claims there.
pub open spec fn spec_opened_bit(base: Seq<bool>, msgs: Seq<Seq<u8>>, i: int) -> bool
    decreases msgs.len(),
{
    if msgs.len() == 0 {
        base[i]
    } else {
        spec_opened_bit(base, msgs.drop_last(), i) ^ spec_claimed_bit(msgs.last(), i)
    }
}

/// Serializes one party's batch for one peer: the bit bytes, then that
/// peer's MAC records.
fn abits_msg_for<F: Ring>(bits: &Vec<bool>, macs: &Vec<F>) -> (r: Vec<u8>)
    requires
        macs@.len() == bits@.len(),
        forall|i: int| 0 <= i < macs@.len() ==> (#[trigger] macs@[i]).wf(),
        bits@.len() * (F::spec_bytes() + 1) <= usize::MAX,
    ensures
        r@ == spec_abits_msg(bits@, macs@),
        r@.len() == bits@.len() * (F::spec_bytes() + 1),
{
    let n = bits.len();
    let mut out: Vec<u8> = Vec::new();
    let mut i: usize = 0;
    proof {
        assert(n * (F::spec_bytes() + 1) == n + n * F::spec_bytes()) by (nonlinear_arith);
    }
    while i < n
        invariant
            i <= n,
            n == bits@.len(),
            out@ =~= spec_bits_bytes(bits@.take(i as int)),
            out@.len() == i,
        decreases n - i,
    {
        if bits[i] {
            out.push(1u8);
        } else {
            out.push(0u8);
        }
        proof {
            assert(out@ =~= spec_bits_bytes(bits@.take(i + 1)));
        }
        i = i + 1;
    }
    proof {
        assert(bits@.take(n as int) =~= bits@);
    }
    let mut k: usize = 0;
    while k < n
        invariant
            k <= n,
            n == bits@.len(),
            n == macs@.len(),
            forall|j: int| 0 <= j < macs@.len() ==> (#[trigger] macs@[j]).wf(),
            n * (F::spec_bytes() + 1) <= usize::MAX,
            n * (F::spec_bytes() + 1) == n + n * F::spec_bytes(),
            out@ == spec_bits_bytes(bits@) + spec_macs_bytes(macs@.take(k as int)),
            out@.len() == n + k * F::spec_bytes(),
        decreases n - k,
    {
        proof {
            macs@[k as int].lemma_serialized_len();
            assert((k + 1) * F::spec_bytes() <= n * F::spec_bytes() && (k + 1) * F::spec_bytes()
                == k * F::spec_bytes() + F::spec_bytes()) by (nonlinear_arith)
                requires
                    k < n,
                    F::spec_bytes() >= 0,
            ;
            assert(macs@.take(k + 1).drop_last() =~= macs@.take(k as int));
        }
        macs[k].to_bytes(&mut out);
        k = k + 1;
    }
    proof {
        assert(macs@.take(n as int) =~= macs@);
    }
    out
}

/// The buffers a party sends when opening its batch: one per peer, holding
/// the party's bits and the MACs that authenticate them to that peer.
pub fn open_abits_msgs<F: Ring>(abits: &Abits<F>) -> (r: Vec<Vec<u8>>)
    requires
        abits.wf(),
        abits.bits@.len() * (F::spec_bytes() + 1) <= usize::MAX,
    ensures
        r@.len() == abits.macs@.len(),
        forall|j: int|
            0 <= j < r@.len() ==> (#[trigger] r@[j])@ == spec_abits_msg(
                abits.bits@,
                abits.macs@[j]@,
            ) && r@[j]@.len() == abits.bits@.len() * (F::spec_bytes() + 1),
{
    let mut out: Vec<Vec<u8>> = Vec::new();
    let mut j: usize = 0;
    while j < abits.macs.len()
        invariant
            j <= abits.macs@.len(),
            abits.wf(),
            abits.bits@.len() * (F::spec_bytes() + 1) <= usize::MAX,
            out@.len() == j,
            forall|i: int|
                0 <= i < out@.len() ==> (#[trigger] out@[i])@ == spec_abits_msg(
                    abits.bits@,
                    abits.macs@[i]@,
                ) && out@[i]@.len() == abits.bits@.len() * (F::spec_bytes() + 1),
        decreases abits.macs@.len() - j,
    {
        out.push(abits_msg_for(&abits.bits, &abits.macs[j]));
        j = j + 1;
    }
    out
}

/// Verifies one peer's opening message against the local keys and folds its
/// claimed bits into the running reconstruction. Returns the index of the
/// first bit whose MAC disagrees together with the two disagreeing tags, if
/// any; the running bits are only meaningful when every tag verified.
fn apply_peer_abits<F: Ring>(bits: &mut Vec<bool>, keys: &Vec<F>, delta: &F, msg: &Vec<u8>) -> (r:
    Option<(usize, F, F)>)
    requires
        old(bits)@.len() == keys@.len(),
        forall|i: int| 0 <= i < keys@.len() ==> (#[trigger] keys@[i]).wf(),
        delta.wf(),
        msg@.len() == keys@.len() * (F::spec_bytes() + 1),
        keys@.len() * (F::spec_bytes() + 1) <= usize::MAX,
    ensures
        final(bits)@.len() == old(bits)@.len(),
        match r {
            None => {
                &&& spec_peer_ok(keys@, *delta, msg@)
                &&& forall|i: int|
                    0 <= i < old(bits)@.len() ==> final(bits)@[i] == (old(bits)@[i]
                        ^ spec_claimed_bit(msg@, i))
            },
            Some(found) => {
                &&& found.0 < keys@.len()
                &&& !spec_mac_ok(keys@, *delta, msg@, found.0 as int)
                &&& forall|i: int| 0 <= i < found.0 ==> spec_mac_ok(keys@, *delta, msg@, i)
                &&& found.1 == spec_claimed_mac::<F>(msg@, keys@.len() as int, found.0 as int)
                &&& found.2 == spec_expected_mac(
                    keys@[found.0 as int],
                    *delta,
                    spec_claimed_bit(msg@, found.0 as int),
                )
            },
        },
{
    let n = keys.len();
    let record = F::bytes();
    proof {
        assert(n * (F::spec_bytes() + 1) == n + n * F::spec_bytes()) by (nonlinear_arith);
    }
    let mut i: usize = 0;
    while i < n
        invariant
            i <= n,
            n == keys@.len(),
            old(bits)@.len() == n,
            bits@.len() == n,
            forall|q: int| 0 <= q < keys@.len() ==> (#[trigger] keys@[q]).wf(),
            delta.wf(),
            record as nat == F::spec_bytes(),
            msg@.len() == n * (F::spec_bytes() + 1),
            n * (F::spec_bytes() + 1) <= usize::MAX,
            n * (F::spec_bytes() + 1) == n + n * F::spec_bytes(),
            forall|q: int| 0 <= q < i ==> spec_mac_ok(keys@, *delta, msg@, q),
            forall|q: int|
                0 <= q < i ==> bits@[q] == (old(bits)@[q] ^ spec_claimed_bit(msg@, q)),
            forall|q: int| i <= q < n ==> bits@[q] == old(bits)@[q],
        decreases n - i,
    {
        proof {
            assert((i + 1) * F::spec_bytes() <= n * F::spec_bytes() && (i + 1) * F::spec_bytes()
                == i * F::spec_bytes() + F::spec_bytes() && i * F::spec_bytes() >= 0)
                by (nonlinear_arith)
                requires
                    i < n,
                    F::spec_bytes() >= 0,
            ;
        }
        let nb = msg[i];
        let pb = nb == 1;
        let lo = n + i * record;
        let hi = lo + record;
        let m = F::from_bytes(vstd::slice::slice_subrange(msg.as_slice(), lo, hi));
        let expected = if pb {
            keys[i].add_elem(delta)
        } else {
            keys[i].dup()
        };
        let prior = bits[i];
        bits.set(i, prior ^ pb);
        if !m.eq_elem(&expected) {
            return Some((i, m, expected));
        }
        i = i + 1;
    }
    None
}

/// Reconstructs a batch of shared bits from every peer's opening message,
/// verifying every authentication tag. The result is the exclusive-or of
/// all parties' bit shares; the first tag that disagrees ends the call with
/// a cheat report naming the peer that sent it, the bit index, and the two
/// disagreeing tags. Buffers are checked peer by peer in order, and not
/// past the first mismatch.
pub fn open_abits<F: Ring>(
    abits: &Abits<F>,
    delta: &F,
    my_id: PartyId,
    parties: &Vec<PartyId>,
    dst: FuncId,
    received: &Vec<Vec<u8>>,
) -> (r: Result<Vec<bool>, CheatOrUnexpectedError>)
    requires
        abits.wf(),
        delta.wf(),
        abits.keys@.len() == spec_peers(parties@, my_id).len(),
        received@.len() == spec_peers(parties@, my_id).len(),
        forall|j: int|
            0 <= j < received@.len() ==> (#[trigger] received@[j])@.len() == abits.bits@.len() * (
            F::spec_bytes() + 1),
        abits.bits@.len() * (F::spec_bytes() + 1) <= usize::MAX,
    ensures
        r is Ok <==> (forall|j: int|
            0 <= j < received@.len() ==> spec_peer_ok(
                (#[trigger] abits.keys@[j])@,
                *delta,
                received@[j]@,
            )),
        match r {
            Ok(bits) => {
                &&& bits@.len() == abits.bits@.len()
                &&& forall|i: int|
                    0 <= i < bits@.len() ==> #[trigger] bits@[i] == spec_opened_bit(
                        abits.bits@,
                        spec_msg_views(received@),
                        i,
                    )
            },
            Err(e) => e matches CheatOrUnexpectedError::CheatDetected(c) && (exists|j: int|
                {
                    &&& 0 <= j < received@.len()
                    &&& !spec_peer_ok(abits.keys@[j]@, *delta, received@[j]@)
                    &&& (forall|q: int|
                        0 <= q < j ==> spec_peer_ok(
                            (#[trigger] abits.keys@[q])@,
                            *delta,
                            received@[q]@,
                        ))
                    &&& c.spec_cheater() == Some(spec_peers(parties@, my_id)[j])
                    &&& c.spec_ctx().party == my_id
                    &&& c.spec_ctx().func == dst
                    &&& exists|i: int|
                        {
                            &&& 0 <= i < abits.bits@.len()
                            &&& !spec_mac_ok(abits.keys@[j]@, *delta, received@[j]@, i)
                            &&& (forall|q: int|
                                0 <= q < i ==> spec_mac_ok(
                                    abits.keys@[j]@,
                                    *delta,
                                    received@[j]@,
                                    q,
                                ))
                            &&& c.spec_msg() == spec_mac_fail_msg(
                                i as nat,
                                spec_claimed_mac::<F>(
                                    received@[j]@,
                                    abits.bits@.len() as int,
                                    i,
                                ),
                                spec_expected_mac(
                                    abits.keys@[j]@[i],
                                    *delta,
                                    spec_claimed_bit(received@[j]@, i),
                                ),
                            )
                        }
                }),
        },
{
    let peers = other_parties(parties, my_id);
    let nbits = abits.bits.len();
    let mut bits: Vec<bool> = Vec::new();
    let mut b: usize = 0;
    while b < nbits
        invariant
            b <= nbits,
            nbits == abits.bits@.len(),
            bits@ =~= abits.bits@.take(b as int),
        decreases nbits - b,
    {
        bits.push(abits.bits[b]);
        proof {
            assert(bits@ =~= abits.bits@.take(b + 1));
        }
        b = b + 1;
    }
    proof {
        assert(abits.bits@.take(nbits as int) =~= abits.bits@);
    }
    let ghost views = spec_msg_views(received@);
    let mut j: usize = 0;
    while j < received.len()
        invariant
            j <= received@.len(),
            abits.wf(),
            delta.wf(),
            peers@ == spec_peers(parties@, my_id),
            abits.keys@.len() == received@.len(),
            peers@.len() == received@.len(),
            nbits == abits.bits@.len(),
            views == spec_msg_views(received@),
            forall|q: int|
                0 <= q < received@.len() ==> (#[trigger] received@[q])@.len() == abits.bits@.len()
                    * (F::spec_bytes() + 1),
            abits.bits@.len() * (F::spec_bytes() + 1) <= usize::MAX,
            bits@.len() == nbits,
            forall|q: int|
                0 <= q < j ==> spec_peer_ok((#[trigger] abits.keys@[q])@, *delta, received@[q]@),
            forall|i: int|
                0 <= i < bits@.len() ==> #[trigger] bits@[i] == spec_opened_bit(
                    abits.bits@,
                    views.take(j as int),
                    i,
                ),
        decreases received@.len() - j,
    {
        let outcome = apply_peer_abits(&mut bits, &abits.keys[j], delta, &received[j]);
        match outcome {
            None => {
                proof {
                    assert(views.take(j + 1).drop_last() =~= views.take(j as int));
                    assert(views.take(j + 1).last() == views[j as int]);
                }
            },
            Some(found) => {
                proof {
                    assert(F::spec_bytes() <= nbits * (F::spec_bytes() + 1)) by (nonlinear_arith)
                        requires
                            nbits >= 1,
                            F::spec_bytes() >= 0,
                    ;
                }
                let (bad, got, expected) = found;
                let m = mac_fail_msg(bad, &got, &expected);
                let ctx = FuncContext { party: my_id, func: dst, sid: SessionId::new(dst) };
                let cheat = CheatDetectedError::new(ctx, Some(peers[j]), m);
                proof {
                    assert(!spec_peer_ok(abits.keys@[j as int]@, *delta, received@[j as int]@));
                }
                return Err(CheatOrUnexpectedError::CheatDetected(cheat));
            },
        }
        j = j + 1;
    }
    proof {
        assert(views.take(received@.len() as int) =~= views);
    }
    Ok(bits)
}

/// A broadcast instance is a protocol component in its own right: it runs
/// as one party under the commitment functionality's tag, which is the
/// address its errors carry.
impl BaseFunc for BroadcastCommitOpen {
    open spec fn spec_func_id() -> FuncId {
        FuncId::Fcom
    }

    open spec fn spec_party(&self) -> PartyId {
        self.spec_me()
    }

    open spec fn spec_required_funcs() -> Seq<FuncId> {
        seq![FuncId::Fcom]
    }

    fn func_id() -> (r: FuncId) {
        FuncId::Fcom
    }

    fn required_funcs() -> (r: Vec<FuncId>) {
        let mut deps: Vec<FuncId> = Vec::new();
        deps.push(FuncId::Fcom);
        proof {
            assert(deps@ =~= seq![FuncId::Fcom]);
        }
        deps
    }

    fn party(&self) -> (r: PartyId) {
        self.me
    }
}

/// Phase of one commit-open broadcast instance.
#[derive(PartialEq, Eq, Copy, Clone, Debug, Structural)]
pub enum BroadcastPhase {
    /// Committing own data to every peer and expecting every peer's
    /// commitment; nothing may be opened yet.
    Commit,
    /// Every commitment is placed: decommitting to every peer and retrieving
    /// every peer's opened value.
    Open,
}

/// Equivocation-resistant broadcast of one party's data, seen from that
/// party: commit to everyone, then — only once every commitment is placed —
/// open to everyone and collect what everyone opened. The commitment calls
/// themselves go through the external commitment functionality; this
/// machine fixes their order and collects the results in peer order.
pub struct BroadcastCommitOpen {
    sid: SessionId,
    me: PartyId,
    data: Vec<u8>,
    peers: Vec<PartyId>,
    phase: BroadcastPhase,
    opened: Vec<Option<Vec<u8>>>,
}

impl BroadcastCommitOpen {
    /// The session this broadcast runs under.
    pub closed spec fn spec_sid(&self) -> SessionId {
        self.sid
    }

    /// The broadcasting party.
    pub closed spec fn spec_me(&self) -> PartyId {
        self.me
    }

    /// The data being broadcast.
    pub closed spec fn spec_data(&self) -> Seq<u8> {
        self.data@
    }

    /// The peers addressed, in order.
    pub closed spec fn spec_bco_peers(&self) -> Seq<PartyId> {
        self.peers@
    }

    /// The phase the instance is in.
    pub closed spec fn spec_phase(&self) -> BroadcastPhase {
        self.phase
    }

    /// The values retrieved so far, one slot per peer.
    pub closed spec fn spec_opened(&self) -> Seq<Option<Vec<u8>>> {
        self.opened@
    }

    pub open spec fn wf(&self) -> bool {
        self.spec_opened().len() == self.spec_bco_peers().len()
    }

    /// Starts a broadcast of `data` from `party_id` to every other listed
    /// party, in the commit phase with nothing retrieved.
    pub fn new(sid: SessionId, data: Vec<u8>, party_id: PartyId, parties: &Vec<PartyId>) -> (r:
        Self)
        ensures
            r.wf(),
            r.spec_sid() == sid,
            r.spec_me() == party_id,
            r.spec_data() == data@,
            r.spec_bco_peers() == spec_peers(parties@, party_id),
            r.spec_phase() == BroadcastPhase::Commit,
            forall|j: int| 0 <= j < r.spec_opened().len() ==> r.spec_opened()[j] is None,
    {
        let peers = other_parties(parties, party_id);
        let mut opened: Vec<Option<Vec<u8>>> = Vec::new();
        let n = peers.len();
        let mut j: usize = 0;
        while j < n
            invariant
                j <= n,
                opened@.len() == j,
                forall|k: int| 0 <= k < opened@.len() ==> opened@[k] is None,
            decreases n - j,
        {
            opened.push(None);
            j = j + 1;
        }
        BroadcastCommitOpen { sid, me: party_id, data, peers, phase: BroadcastPhase::Commit, opened }
    }

    /// The peers to commit to and expect a commitment from — and later, to
    /// decommit to and retrieve from.
    pub fn peers(&self) -> (r: &Vec<PartyId>)
        ensures
            r@ == self.spec_bco_peers(),
    {
        &self.peers
    }

    /// The data to hand to each commit and decommit call.
    pub fn data(&self) -> (r: &Vec<u8>)
        ensures
            r@ == self.spec_data(),
    {
        &self.data
    }

    /// Advances to the open phase. Only legal once every commit and
    /// expectation has completed, which the caller certifies by calling
    /// this; nothing may be decommitted before.
    pub fn commits_placed(&mut self)
        requires
            old(self).spec_phase() == BroadcastPhase::Commit,
        ensures
            final(self).wf() == old(self).wf(),
            final(self).spec_sid() == old(self).spec_sid(),
            final(self).spec_me() == old(self).spec_me(),
            final(self).spec_data() == old(self).spec_data(),
            final(self).spec_bco_peers() == old(self).spec_bco_peers(),
            final(self).spec_opened() == old(self).spec_opened(),
            final(self).spec_phase() == BroadcastPhase::Open,
    {
        self.phase = BroadcastPhase::Open;
    }

    /// Records the value peer index `j` opened.
    pub fn record_opened(&mut self, j: usize, val: Vec<u8>)
        requires
            old(self).wf(),
            old(self).spec_phase() == BroadcastPhase::Open,
            j < old(self).spec_bco_peers().len(),
        ensures
            final(self).wf(),
            final(self).spec_sid() == old(self).spec_sid(),
            final(self).spec_me() == old(self).spec_me(),
            final(self).spec_data() == old(self).spec_data(),
            final(self).spec_bco_peers() == old(self).spec_bco_peers(),
            final(self).spec_phase() == old(self).spec_phase(),
            final(self).spec_opened() == old(self).spec_opened().update(j as int, Some(val)),
    {
        self.opened.set(j, Some(val));
    }

    /// The session this broadcast runs under.
    pub fn sid(&self) -> (r: SessionId)
        ensures
            r == self.spec_sid(),
    {
        self.sid
    }

    /// The retrieved values in peer order, once every peer's value is in;
    /// an ordinary error naming the broadcast's context when one is missing.
    pub fn finish(self) -> (r: Result<Vec<Vec<u8>>, UnexpectedError>)
        requires
            self.wf(),
            self.spec_phase() == BroadcastPhase::Open,
        ensures
            r is Ok <==> (forall|j: int|
                0 <= j < self.spec_opened().len() ==> self.spec_opened()[j] is Some),
            match r {
                Ok(vals) => {
                    &&& vals@.len() == self.spec_bco_peers().len()
                    &&& forall|j: int|
                        0 <= j < vals@.len() ==> self.spec_opened()[j] == Some(
                            #[trigger] vals@[j],
                        )
                },
                Err(e) => {
                    &&& e.ctx.party == self.spec_me()
                    &&& e.ctx.func == FuncId::Fcom
                    &&& e.ctx.sid == self.spec_sid()
                },
            },
    {
        let n = self.peers.len();
        let mut j: usize = 0;
        while j < n
            invariant
                j <= n,
                self.wf(),
                n == self.spec_bco_peers().len(),
                forall|k: int| 0 <= k < j ==> self.spec_opened()[k] is Some,
            decreases n - j,
        {
            match &self.opened[j] {
                Some(_) => {},
                None => {
                    let sid = self.sid;
                    return Err(
                        self.unexpected(sid, String::from_str("missing an opened broadcast value")),
                    );
                },
            }
            j = j + 1;
        }
        let mut vals: Vec<Vec<u8>> = Vec::new();
        let mut opened = self.opened;
        let mut k: usize = 0;
        while k < n
            invariant
                k <= n,
                opened@ =~= self.spec_opened().skip(k as int),
                n == self.spec_bco_peers().len(),
                n == self.spec_opened().len(),
                forall|q: int| 0 <= q < n ==> self.spec_opened()[q] is Some,
                vals@.len() == k,
                forall|q: int|
                    0 <= q < vals@.len() ==> self.spec_opened()[q] == Some(#[trigger] vals@[q]),
            decreases n - k,
        {
            let slot = opened.remove(0);
            proof {
                assert(self.spec_opened().skip(k as int).skip(1) =~= self.spec_opened().skip(
                    k + 1,
                ));
                assert(self.spec_opened()[k as int] is Some);
            }
            match slot {
                Some(v) => {
                    vals.push(v);
                },
                None => {
                    return vstd::pervasive::unreached();
                },
            }
            k = k + 1;
        }
        proof {
            assert forall|q: int| 0 <= q < self.spec_opened().len() implies self.spec_opened()[q]
                is Some by {
                assert(self.spec_opened()[q] == Some(vals@[q]));
            }
        }
        Ok(vals)
    }
}

} // verus!
