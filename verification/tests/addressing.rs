//! Tests for the addressing model: functionality tags, session derivation,
//! and the error taxonomy.

use mpc_core::base_func::{
    CheatDetectedError, CheatOrUnexpectedError, FuncContext, FuncId, SessionId, UnexpectedError,
};

#[test]
fn test_ssid_stability() {
    let sid = SessionId::new(FuncId::Ftest);

    let ssid = sid.derive_ssid(FuncId::Fcontroller);
    // within a program instance this should be deterministic
    assert_eq!(ssid, sid.derive_ssid(FuncId::Fcontroller));

    let sid2 = sid.clone().next();
    let ssid2 = sid2.derive_ssid(FuncId::Fcontroller);

    // different parents should result in different sub sids
    assert!(ssid != ssid2);
}

#[test]
fn derive_ssid_distinct_parents() {
    // distinct (parent tag, id) pairs derive to distinct child ids
    let a = SessionId::new(FuncId::Ftest);
    let b = SessionId::new(FuncId::Fmpc);
    let c = SessionId::new(FuncId::Ftest).next();
    let da = a.derive_ssid(FuncId::Fcom);
    let db = b.derive_ssid(FuncId::Fcom);
    let dc = c.derive_ssid(FuncId::Fcom);
    assert!(da.id != db.id);
    assert!(da.id != dc.id);
    assert!(db.id != dc.id);
    assert_eq!(da.parent, FuncId::Fcom);
}

#[test]
fn derive_ssid_reserves_subcounter_bits() {
    let sid = SessionId::new(FuncId::Fthresh).next().next();
    let child = sid.derive_ssid(FuncId::Fabit);
    assert_eq!(child.id & 0xffff, 0);
}

#[test]
fn session_new_and_next() {
    let sid = SessionId::new(FuncId::Frand);
    assert_eq!(sid.parent, FuncId::Frand);
    assert_eq!(sid.id, 0);
    let sid2 = sid.next();
    assert_eq!(sid2.parent, FuncId::Frand);
    assert_eq!(sid2.id, 1);
}

#[test]
fn func_id_codes_round_trip() {
    let all = [
        (FuncId::Fcomcomp, 1u16),
        (FuncId::Fcom, 2),
        (FuncId::Fmpc, 3),
        (FuncId::Fthresh, 4),
        (FuncId::Ftabit, 5),
        (FuncId::Frand, 6),
        (FuncId::Fcote, 7),
        (FuncId::Fmult, 8),
        (FuncId::Fabit, 9),
        (FuncId::Fnet, 999),
        (FuncId::Ftest, 1000),
        (FuncId::Fcontroller, 10000),
        (FuncId::Other, 65535),
    ];
    for (f, code) in all {
        assert_eq!(f.to_u16(), code);
        assert_eq!(FuncId::from_u16(code), f);
    }
}

#[test]
fn cheat_detected_error_carries_attribution() {
    let ctx = FuncContext {
        party: 3,
        func: FuncId::Fabit,
        sid: SessionId::new(FuncId::Fabit),
    };
    let e = CheatDetectedError::new(ctx, Some(2), String::from("bad decommit"));
    assert_eq!(e.cheater(), Some(2));
    assert_eq!(e.message().as_str(), "bad decommit");
}

#[test]
fn context_and_errors_render_with_full_address() {
    let ctx = FuncContext {
        party: 3,
        func: FuncId::Fabit,
        sid: SessionId::new(FuncId::Fabit).next(),
    };
    assert_eq!(ctx.render(), "3 - Fabit (Fabit, 1)");

    let u = UnexpectedError {
        ctx: ctx.clone(),
        msg: String::from("stream closed"),
    };
    assert_eq!(u.render(), "3 - Fabit (Fabit, 1): stream closed");

    let c = CheatDetectedError::new(ctx.clone(), Some(2), String::from("bad decommit"));
    assert_eq!(
        c.render(),
        "3 - Fabit (Fabit, 1): cheat detected by party 2, bad decommit"
    );
    let anon = CheatDetectedError::new(ctx, None, String::from("inconsistent value"));
    assert_eq!(
        anon.render(),
        "3 - Fabit (Fabit, 1): cheat detected by party unknown, inconsistent value"
    );
}

#[test]
fn text_writers_render_exactly() {
    assert_eq!(mpc_core::render::decimal_string(0), "0");
    assert_eq!(mpc_core::render::decimal_string(905), "905");
    assert_eq!(mpc_core::render::decimal_string(u64::MAX), "18446744073709551615");
    assert_eq!(mpc_core::render::hex_string(&vec![]), "");
    assert_eq!(mpc_core::render::hex_string(&vec![0x00, 0xaf, 0x3c]), "00af3c");
}

#[test]
fn cheat_or_unexpected_conversions() {
    let ctx = FuncContext {
        party: 1,
        func: FuncId::Fnet,
        sid: SessionId::new(FuncId::Fnet),
    };
    let u = UnexpectedError {
        ctx: ctx.clone(),
        msg: String::from("stream closed"),
    };
    let as_either = CheatOrUnexpectedError::from(u);
    assert!(matches!(as_either, CheatOrUnexpectedError::Unexpected(_)));

    let c = CheatDetectedError::new(ctx, None, String::from("inconsistent value"));
    let as_either = CheatOrUnexpectedError::from(c);
    assert!(matches!(as_either, CheatOrUnexpectedError::CheatDetected(_)));
}
