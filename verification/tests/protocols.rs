//! End-to-end tests of the four sub-protocol cores, with the message
//! exchange simulated in the test: every party's buffers are computed, then
//! handed to the other parties as if the transport had delivered them.

use mpc_core::auth_bits::Abits;
use mpc_core::base_func::{BaseFunc, CheatOrUnexpectedError, FuncId, PartyId, SessionId};
use mpc_core::common_protos::{
    open_abits, open_abits_msgs, other_parties, random_shares_combine, random_shares_prepare,
    BroadcastCommitOpen, RandomSharesRound, SyncSession,
};
use mpc_core::fp64::{Fp64, FP61_MODULUS};

const P: u64 = FP61_MODULUS;

fn padd(a: u64, b: u64) -> u64 {
    ((a as u128 + b as u128) % P as u128) as u64
}

fn psub(a: u64, b: u64) -> u64 {
    ((a as u128 + P as u128 - b as u128 % P as u128) % P as u128) as u64
}

fn pmul(a: u64, b: u64) -> u64 {
    ((a as u128 * b as u128) % P as u128) as u64
}

fn ppow(mut a: u64, mut e: u64) -> u64 {
    let mut acc: u64 = 1;
    while e > 0 {
        if e & 1 == 1 {
            acc = pmul(acc, a);
        }
        a = pmul(a, a);
        e >>= 1;
    }
    acc
}

fn pinv(a: u64) -> u64 {
    ppow(a, P - 2)
}

/// The constant term of the degree-1 polynomial through (x1, s1), (x2, s2).
fn lagrange2(x1: u64, s1: u64, x2: u64, s2: u64) -> u64 {
    let l1 = pmul(x2, pinv(psub(x2, x1)));
    let l2 = pmul(x1, pinv(psub(x1, x2)));
    padd(pmul(s1, l1), pmul(s2, l2))
}

/// The hex rendering of a field element's little-endian record, as the
/// cheat diagnostic prints it.
fn hexle(v: u64) -> String {
    v.to_le_bytes().iter().map(|b| format!("{:02x}", b)).collect()
}

fn peer_index(parties: &[PartyId], me: PartyId, peer: PartyId) -> usize {
    parties
        .iter()
        .filter(|&&p| p != me)
        .position(|&p| p == peer)
        .expect("peer listed")
}

#[test]
fn random_shares_any_two_shares_reconstruct_the_same_secret() {
    let parties: Vec<PartyId> = vec![1, 2, 3];
    let t: usize = 2;

    let rounds: Vec<RandomSharesRound<Fp64>> = parties
        .iter()
        .map(|&p| random_shares_prepare::<Fp64>(1, p, &parties, t))
        .collect();

    // deliver: party p receives, from each peer q, the buffer q built for p
    let mut shares: Vec<u64> = Vec::new();
    for (pi, &p) in parties.iter().enumerate() {
        let mut received: Vec<Vec<u8>> = Vec::new();
        for &q in parties.iter().filter(|&&q| q != p) {
            let qi = parties.iter().position(|&x| x == q).unwrap();
            let slot = peer_index(&parties, q, p);
            received.push(rounds[qi].peer_msgs[slot].clone());
        }
        let my_shares: Vec<Fp64> = rounds[pi].my_shares.clone();
        let combined = random_shares_combine::<Fp64>(my_shares, &received, p, FuncId::Frand)
            .expect("well-sized buffers combine");
        assert_eq!(combined.len(), 1);
        shares.push(combined[0].v);
    }

    // any two of the three shares interpolate to the same constant term
    let s12 = lagrange2(1, shares[0], 2, shares[1]);
    let s13 = lagrange2(1, shares[0], 3, shares[2]);
    let s23 = lagrange2(2, shares[1], 3, shares[2]);
    assert_eq!(s12, s13);
    assert_eq!(s12, s23);
}

#[test]
fn random_shares_combine_rejects_missized_buffer() {
    let parties: Vec<PartyId> = vec![1, 2];
    let round = random_shares_prepare::<Fp64>(2, 1, &parties, 2);
    let received = vec![vec![0u8; 3]];
    let r = random_shares_combine::<Fp64>(round.my_shares, &received, 1, FuncId::Frand);
    let e = r.err().expect("a missized buffer is an ordinary error");
    assert_eq!(e.ctx.party, 1);
    assert_eq!(e.ctx.func, FuncId::Frand);
}

#[test]
fn broadcast_commit_open_delivers_the_committed_value() {
    let parties: Vec<PartyId> = vec![1, 2, 3];
    let sid = SessionId::new(FuncId::Ftest);
    let payloads: Vec<Vec<u8>> = vec![b"hello".to_vec(), b"from2".to_vec(), b"from3".to_vec()];

    let mut machines: Vec<BroadcastCommitOpen> = parties
        .iter()
        .enumerate()
        .map(|(i, &p)| BroadcastCommitOpen::new(sid, payloads[i].clone(), p, &parties))
        .collect();

    // commit phase: every party commits to every peer and expects every
    // peer's commitment; only then may anything be opened
    for m in machines.iter_mut() {
        assert_eq!(m.peers().len(), 2);
        m.commits_placed();
    }

    // open phase: each party retrieves, per peer, the value that peer
    // committed
    for (i, &p) in parties.iter().enumerate() {
        let peers = other_parties(&parties, p);
        for (j, &q) in peers.iter().enumerate() {
            let qi = parties.iter().position(|&x| x == q).unwrap();
            machines[i].record_opened(j, payloads[qi].clone());
        }
    }

    let mut results = Vec::new();
    for m in machines {
        results.push(m.finish().expect("all values retrieved"));
    }
    // parties 2 and 3 both received exactly b"hello" from party 1
    assert_eq!(results[1][0], b"hello".to_vec());
    assert_eq!(results[2][0], b"hello".to_vec());
    // and one another's payloads, in peer order
    assert_eq!(results[1][1], b"from3".to_vec());
    assert_eq!(results[2][1], b"from2".to_vec());
    assert_eq!(results[0], vec![b"from2".to_vec(), b"from3".to_vec()]);
}

#[test]
fn broadcast_declares_its_dependencies() {
    assert_eq!(
        <BroadcastCommitOpen as BaseFunc>::func_id(),
        FuncId::Fcom
    );
    assert_eq!(
        <BroadcastCommitOpen as BaseFunc>::required_funcs(),
        vec![FuncId::Fcom]
    );
}

#[test]
fn broadcast_finish_reports_a_missing_value() {
    let parties: Vec<PartyId> = vec![1, 2, 3];
    let sid = SessionId::new(FuncId::Ftest);
    let mut m = BroadcastCommitOpen::new(sid, b"x".to_vec(), 1, &parties);
    m.commits_placed();
    m.record_opened(0, b"y".to_vec());
    // peer index 1 never opened
    let e = m.finish().err().expect("incomplete broadcast fails");
    assert_eq!(e.ctx.party, 1);
    assert_eq!(e.ctx.func, FuncId::Fcom);
}

#[test]
fn synchronize_completes_once_every_peer_answers() {
    let parties: Vec<PartyId> = vec![1, 2, 3];
    let mut sessions: Vec<SyncSession> =
        parties.iter().map(|&p| SyncSession::new(p, &parties)).collect();

    for s in sessions.iter() {
        assert_eq!(s.ping(), vec![0u8]);
        assert_eq!(s.peers().len(), 2);
        assert!(!s.is_complete());
    }

    // all parties participate: every round trip completes
    for s in sessions.iter_mut() {
        s.record_done(0);
        assert!(!s.is_complete());
        s.record_done(1);
        assert!(s.is_complete());
    }

    // a party that never calls leaves the others suspended: party 3 silent,
    // so parties 1 and 2 each still wait on their second peer
    let mut one = SyncSession::new(1, &parties);
    one.record_done(0);
    assert!(!one.is_complete());
}

/// Builds consistent authenticated bits for every party: `keys[v][p]` is
/// the key party `v` holds to verify party `p`, and each MAC is
/// `key + delta_v` exactly when the authenticated bit is one.
fn build_abits(
    parties: &[PartyId],
    bits: &[Vec<bool>],
    deltas: &[u64],
    keys: &dyn Fn(usize, usize, usize) -> u64,
) -> Vec<Abits<Fp64>> {
    let n = parties.len();
    let nbits = bits[0].len();
    let mut all = Vec::new();
    for pi in 0..n {
        let mut macs: Vec<Vec<Fp64>> = Vec::new();
        let mut my_keys: Vec<Vec<Fp64>> = Vec::new();
        for qi in 0..n {
            if qi == pi {
                continue;
            }
            // MACs authenticating pi's bits toward verifier qi
            let mut mac_row = Vec::new();
            for i in 0..nbits {
                let base = keys(qi, pi, i);
                let tag = if bits[pi][i] { padd(base, deltas[qi]) } else { base };
                mac_row.push(Fp64 { v: tag });
            }
            macs.push(mac_row);
            // keys pi holds to verify qi's bits
            let mut key_row = Vec::new();
            for i in 0..nbits {
                key_row.push(Fp64 { v: keys(pi, qi, i) });
            }
            my_keys.push(key_row);
        }
        all.push(Abits { bits: bits[pi].clone(), macs, keys: my_keys });
    }
    all
}

fn deliver_abits(
    parties: &[PartyId],
    all: &[Abits<Fp64>],
    me_index: usize,
) -> Vec<Vec<u8>> {
    let me = parties[me_index];
    let mut received = Vec::new();
    for (qi, &q) in parties.iter().enumerate() {
        if q == me {
            continue;
        }
        let msgs = open_abits_msgs(&all[qi]);
        let slot = peer_index(parties, q, me);
        received.push(msgs[slot].clone());
    }
    received
}

#[test]
fn open_abits_returns_the_xor_of_all_shares() {
    let parties: Vec<PartyId> = vec![1, 2, 3];
    let bits = vec![
        vec![true, false],
        vec![false, true],
        vec![true, true],
    ];
    let deltas = vec![5u64, 7, 9];
    let keys = |v: usize, p: usize, i: usize| 1000 * v as u64 + 100 * p as u64 + i as u64 + 1;

    let all = build_abits(&parties, &bits, &deltas, &keys);
    let expected = vec![true ^ false ^ true, false ^ true ^ true];

    for (pi, &p) in parties.iter().enumerate() {
        let received = deliver_abits(&parties, &all, pi);
        let opened = open_abits::<Fp64>(
            &all[pi],
            &Fp64 { v: deltas[pi] },
            p,
            &parties,
            FuncId::Fabit,
            &received,
        )
        .expect("correct MACs open cleanly");
        assert_eq!(opened, expected);
    }
}

#[test]
fn open_abits_names_the_cheater_and_bit_index() {
    let parties: Vec<PartyId> = vec![1, 2, 3];
    let bits = vec![
        vec![true, false],
        vec![false, true],
        vec![true, true],
    ];
    let deltas = vec![5u64, 7, 9];
    let keys = |v: usize, p: usize, i: usize| 2000 * v as u64 + 50 * p as u64 + i as u64 + 3;

    let all = build_abits(&parties, &bits, &deltas, &keys);
    let mut received = deliver_abits(&parties, &all, 0);
    // corrupt party 2's MAC for bit index 0: the MAC section starts after
    // the two bit bytes
    received[0][2] ^= 1;

    let r = open_abits::<Fp64>(
        &all[0],
        &Fp64 { v: deltas[0] },
        1,
        &parties,
        FuncId::Fabit,
        &received,
    );
    match r {
        Err(CheatOrUnexpectedError::CheatDetected(c)) => {
            assert_eq!(c.cheater(), Some(2));
            // the flipped tag was keys(0, 1, 0) = 53 with its low byte
            // flipped; the expected tag is 53 (the claimed bit is zero)
            let expected_msg =
                format!("check mac 0 failed ({} != {})", hexle(52), hexle(53));
            assert_eq!(c.message().as_str(), expected_msg);
        }
        _ => panic!("a corrupted MAC must be reported as a detected cheat"),
    }
}

#[test]
fn open_abits_reports_the_first_bad_index() {
    let parties: Vec<PartyId> = vec![1, 2];
    let bits = vec![vec![false, true, true], vec![true, true, false]];
    let deltas = vec![11u64, 13];
    let keys = |v: usize, p: usize, i: usize| 300 * v as u64 + 30 * p as u64 + 3 * i as u64 + 2;

    let all = build_abits(&parties, &bits, &deltas, &keys);
    let mut received = deliver_abits(&parties, &all, 0);
    // corrupt the MAC of bit index 1 in the only peer's message
    received[0][3 + 8] ^= 0x40;

    let r = open_abits::<Fp64>(
        &all[0],
        &Fp64 { v: deltas[0] },
        1,
        &parties,
        FuncId::Fabit,
        &received,
    );
    match r {
        Err(CheatOrUnexpectedError::CheatDetected(c)) => {
            assert_eq!(c.cheater(), Some(2));
            // the true tag is keys(0, 1, 1) + delta = 35 + 11 = 46; the
            // corruption flipped bit 0x40 of its low byte, giving 110
            let expected_msg =
                format!("check mac 1 failed ({} != {})", hexle(110), hexle(46));
            assert_eq!(c.message().as_str(), expected_msg);
        }
        _ => panic!("a corrupted MAC must be reported as a detected cheat"),
    }
}

#[test]
fn open_abits_empty_batch_opens_to_nothing() {
    let parties: Vec<PartyId> = vec![1, 2];
    let abits = Abits::<Fp64> {
        bits: vec![],
        macs: vec![vec![]],
        keys: vec![vec![]],
    };
    let received: Vec<Vec<u8>> = vec![vec![]];
    let opened = open_abits::<Fp64>(
        &abits,
        &Fp64 { v: 1 },
        1,
        &parties,
        FuncId::Fabit,
        &received,
    )
    .expect("an empty batch opens cleanly");
    assert!(opened.is_empty());
}

#[test]
fn abits_validate_decides_the_batch_invariant() {
    let good = Abits::<Fp64> {
        bits: vec![true, false],
        macs: vec![vec![Fp64 { v: 1 }, Fp64 { v: 2 }]],
        keys: vec![vec![Fp64 { v: 3 }, Fp64 { v: 4 }]],
    };
    assert!(good.validate());

    let misaligned = Abits::<Fp64> {
        bits: vec![true, false],
        macs: vec![vec![Fp64 { v: 1 }]],
        keys: vec![vec![Fp64 { v: 3 }, Fp64 { v: 4 }]],
    };
    assert!(!misaligned.validate());

    let lopsided = Abits::<Fp64> {
        bits: vec![true],
        macs: vec![vec![Fp64 { v: 1 }]],
        keys: vec![],
    };
    assert!(!lopsided.validate());

    let unreduced = Abits::<Fp64> {
        bits: vec![true],
        macs: vec![vec![Fp64 { v: u64::MAX }]],
        keys: vec![vec![Fp64 { v: 3 }]],
    };
    assert!(!unreduced.validate());
}

#[test]
fn other_parties_drops_only_me() {
    let parties: Vec<PartyId> = vec![4, 7, 9, 11];
    assert_eq!(other_parties(&parties, 9), vec![4, 7, 11]);
    assert_eq!(other_parties(&parties, 2), vec![4, 7, 9, 11]);
    assert_eq!(other_parties(&vec![5], 5), Vec::<PartyId>::new());
}
