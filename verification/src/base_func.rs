//! Addressing and session model: functionality tags, tree-structured session
//! identifiers with deterministic derivation, and the error taxonomy that
//! distinguishes ordinary faults from detected cheating.

use vstd::prelude::*;
use vstd::string::StringExecFns;
use crate::render::{decimal_string, spec_decimal};

verus! {

/// Identifier of one protocol participant; globally agreed and stable for a
/// protocol run.
pub type PartyId = u64;

/// Closed enumeration of sub-protocol tags, used as a channel-multiplexing
/// key. Each tag has a stable numeric encoding, given by `spec_code`.
#[derive(PartialEq, Eq, Copy, Clone, Hash, Debug, Structural)]
pub enum FuncId {
    Fcomcomp,
    Fcom,
    Fmpc,
    Fthresh,
    Ftabit,
    Frand,
    Fcote,
    Fmult,
    Fabit,
    Fnet,
    Ftest,
    Fcontroller,
    Other,
}

impl FuncId {
    /// The stable numeric encoding of this tag.
    pub open spec fn spec_code(self) -> u16 {
        match self {
            FuncId::Fcomcomp => 1,
            FuncId::Fcom => 2,
            FuncId::Fmpc => 3,
            FuncId::Fthresh => 4,
            FuncId::Ftabit => 5,
            FuncId::Frand => 6,
            FuncId::Fcote => 7,
            FuncId::Fmult => 8,
            FuncId::Fabit => 9,
            FuncId::Fnet => 999,
            FuncId::Ftest => 1000,
            FuncId::Fcontroller => 10000,
            FuncId::Other => 65535,
        }
    }

    /// The tag a numeric code stands for, if any.
    pub open spec fn spec_from_code(code: u16) -> Option<FuncId> {
        match code {
            1u16 => Some(FuncId::Fcomcomp),
            2u16 => Some(FuncId::Fcom),
            3u16 => Some(FuncId::Fmpc),
            4u16 => Some(FuncId::Fthresh),
            5u16 => Some(FuncId::Ftabit),
            6u16 => Some(FuncId::Frand),
            7u16 => Some(FuncId::Fcote),
            8u16 => Some(FuncId::Fmult),
            9u16 => Some(FuncId::Fabit),
            999u16 => Some(FuncId::Fnet),
            1000u16 => Some(FuncId::Ftest),
            10000u16 => Some(FuncId::Fcontroller),
            65535u16 => Some(FuncId::Other),
            _ => None,
        }
    }

    /// Numeric encoding of this tag.
    pub fn to_u16(self) -> (r: u16)
        ensures
            r == self.spec_code(),
    {
        match self {
            FuncId::Fcomcomp => 1,
            FuncId::Fcom => 2,
            FuncId::Fmpc => 3,
            FuncId::Fthresh => 4,
            FuncId::Ftabit => 5,
            FuncId::Frand => 6,
            FuncId::Fcote => 7,
            FuncId::Fmult => 8,
            FuncId::Fabit => 9,
            FuncId::Fnet => 999,
            FuncId::Ftest => 1000,
            FuncId::Fcontroller => 10000,
            FuncId::Other => 65535,
        }
    }

    /// The tag's name.
    pub open spec fn spec_name(self) -> Seq<char> {
        match self {
            FuncId::Fcomcomp => "Fcomcomp"@,
            FuncId::Fcom => "Fcom"@,
            FuncId::Fmpc => "Fmpc"@,
            FuncId::Fthresh => "Fthresh"@,
            FuncId::Ftabit => "Ftabit"@,
            FuncId::Frand => "Frand"@,
            FuncId::Fcote => "Fcote"@,
            FuncId::Fmult => "Fmult"@,
            FuncId::Fabit => "Fabit"@,
            FuncId::Fnet => "Fnet"@,
            FuncId::Ftest => "Ftest"@,
            FuncId::Fcontroller => "Fcontroller"@,
            FuncId::Other => "Other"@,
        }
    }

    /// The tag's name, for diagnostics.
    pub fn name(self) -> (r: &'static str)
        ensures
            r@ == self.spec_name(),
    {
        match self {
            FuncId::Fcomcomp => "Fcomcomp",
            FuncId::Fcom => "Fcom",
            FuncId::Fmpc => "Fmpc",
            FuncId::Fthresh => "Fthresh",
            FuncId::Ftabit => "Ftabit",
            FuncId::Frand => "Frand",
            FuncId::Fcote => "Fcote",
            FuncId::Fmult => "Fmult",
            FuncId::Fabit => "Fabit",
            FuncId::Fnet => "Fnet",
            FuncId::Ftest => "Ftest",
            FuncId::Fcontroller => "Fcontroller",
            FuncId::Other => "Other",
        }
    }

    /// Converts a numeric code back to its tag. An unrecognized value is a
    /// fatal configuration error, so callers must pass a known code.
    pub fn from_u16(code: u16) -> (r: FuncId)
        requires
            FuncId::spec_from_code(code) is Some,
        ensures
            FuncId::spec_from_code(code) == Some(r),
            r.spec_code() == code,
    {
        match code {
            1 => FuncId::Fcomcomp,
            2 => FuncId::Fcom,
            3 => FuncId::Fmpc,
            4 => FuncId::Fthresh,
            5 => FuncId::Ftabit,
            6 => FuncId::Frand,
            7 => FuncId::Fcote,
            8 => FuncId::Fmult,
            9 => FuncId::Fabit,
            999 => FuncId::Fnet,
            1000 => FuncId::Ftest,
            10000 => FuncId::Fcontroller,
            _ => FuncId::Other,
        }
    }
}

/// Every tag's numeric encoding converts back to that tag: the encoding is
/// stable and injective over the closed enumeration.
pub proof fn lemma_func_code_round_trip(f: FuncId)
    ensures
        FuncId::spec_from_code(f.spec_code()) == Some(f),
{
}

/// 64-bit finalizer used for session-id derivation: a bijective mixer whose
/// output bits all depend on all input bits. Collision-freedom over the
/// bounded fan-out used in practice is expected, not guaranteed.
pub open spec fn spec_mix64(z: u64) -> u64 {
    let z1 = (z ^ (z >> 30)).wrapping_mul(0xbf58476d1ce4e5b9);
    let z2 = (z1 ^ (z1 >> 27)).wrapping_mul(0x94d049bb133111eb);
    z2 ^ (z2 >> 31)
}

fn mix64(z: u64) -> (r: u64)
    ensures
        r == spec_mix64(z),
{
    let z1: u64 = (z ^ (z >> 30)).wrapping_mul(0xbf58476d1ce4e5b9);
    let z2: u64 = (z1 ^ (z1 >> 27)).wrapping_mul(0x94d049bb133111eb);
    z2 ^ (z2 >> 31)
}

/// Order-sensitive hash of a `(parent tag, counter)` pair, used to derive a
/// child session id. The top 48 bits of the derived id carry the hash; the
/// bottom 16 bits are reserved as a local sub-counter space for the child.
pub open spec fn spec_session_hash(parent: FuncId, id: u64) -> u64 {
    spec_mix64(id.wrapping_add(spec_mix64(parent.spec_code() as u64)))
}

/// Identifier of one execution instance of a functionality. Sessions form a
/// forest: roots are created by `new`, siblings by `next`, children by
/// `derive_ssid`.
#[derive(PartialEq, Eq, Copy, Clone, Hash, Debug, Structural)]
pub struct SessionId {
    pub parent: FuncId,
    pub id: u64,
}

impl SessionId {
    /// The child session that `derive_ssid` produces for a given child tag:
    /// a deterministic, order-sensitive function of `(parent, id)` alone.
    pub open spec fn spec_derive_ssid(self, caller: FuncId) -> SessionId {
        SessionId { parent: caller, id: spec_session_hash(self.parent, self.id) << 16 }
    }

    /// Fresh root session for sub-protocol `caller`.
    pub fn new(caller: FuncId) -> (r: Self)
        ensures
            r.parent == caller,
            r.id == 0,
    {
        SessionId { parent: caller, id: 0 }
    }

    /// Monotonic successor within the same parent tag, used when a
    /// functionality issues multiple independent sub-calls to the same child.
    pub fn next(self) -> (r: Self)
        requires
            self.id < u64::MAX,
        ensures
            r.parent == self.parent,
            r.id == self.id + 1,
    {
        SessionId { parent: self.parent, id: self.id + 1 }
    }

    /// The session rendered for diagnostics: `(parent, id)`.
    pub open spec fn spec_render(self) -> Seq<char> {
        "("@ + self.parent.spec_name() + ", "@ + spec_decimal(self.id as nat) + ")"@
    }

    /// Renders the session as `(parent, id)`.
    pub fn render(&self) -> (r: String)
        ensures
            r@ == self.spec_render(),
    {
        let mut s = String::from_str("(");
        s.append(self.parent.name());
        s.append(", ");
        let digits = decimal_string(self.id);
        s.append(digits.as_str());
        s.append(")");
        s
    }

    /// Child session id for child tag `caller`: a deterministic hash of this
    /// session's `(parent, id)` pair, shifted into the top 48 bits so the
    /// bottom 16 bits remain a sub-counter space for the child.
    pub fn derive_ssid(&self, caller: FuncId) -> (r: Self)
        ensures
            r == self.spec_derive_ssid(caller),
    {
        let h: u64 = mix64(self.id.wrapping_add(mix64(self.parent.to_u16() as u64)));
        SessionId { parent: caller, id: h << 16 }
    }
}

/// Full address of one protocol instance at one party: used to look up the
/// transport channel, stamp every error, and attribute detected cheats.
#[derive(Clone, Debug)]
pub struct FuncContext {
    pub party: PartyId,
    pub func: FuncId,
    pub sid: SessionId,
}

impl FuncContext {
    /// The context rendered for diagnostics: `party - func (parent, id)`.
    pub open spec fn spec_render(self) -> Seq<char> {
        spec_decimal(self.party as nat) + " - "@ + self.func.spec_name() + " "@
            + self.sid.spec_render()
    }

    /// Renders the context as `party - func (parent, id)`.
    pub fn render(&self) -> (r: String)
        ensures
            r@ == self.spec_render(),
    {
        let mut s = decimal_string(self.party);
        s.append(" - ");
        s.append(self.func.name());
        s.append(" ");
        let sid = self.sid.render();
        s.append(sid.as_str());
        s
    }
}

/// A local or transport-level failure not attributable to a peer. Always
/// fatal to the current call and propagated; never retried at this layer.
#[derive(Clone, Debug)]
pub struct UnexpectedError {
    pub ctx: FuncContext,
    pub msg: String,
}

impl UnexpectedError {
    /// The failure rendered for operators, prefixed with its context.
    pub open spec fn spec_render(self) -> Seq<char> {
        self.ctx.spec_render() + ": "@ + self.msg@
    }

    /// Renders the failure, prefixed with its context.
    pub fn render(&self) -> (r: String)
        ensures
            r@ == self.spec_render(),
    {
        let mut s = self.ctx.render();
        s.append(": ");
        s.append(self.msg.as_str());
        s
    }
}

/// A specific peer's message failed a check it was supposed to satisfy.
/// `cheater` is absent when the violation cannot be attributed to one party.
#[derive(Clone, Debug)]
pub struct CheatDetectedError {
    ctx: FuncContext,
    cheater: Option<PartyId>,
    msg: String,
}

impl CheatDetectedError {
    /// The context that detected the cheat.
    pub closed spec fn spec_ctx(&self) -> FuncContext {
        self.ctx
    }

    /// The accused party, if the violation is attributable.
    pub closed spec fn spec_cheater(&self) -> Option<PartyId> {
        self.cheater
    }

    /// The diagnostic message.
    pub closed spec fn spec_msg(&self) -> Seq<char> {
        self.msg@
    }

    pub fn new(ctx: FuncContext, cheater: Option<PartyId>, msg: String) -> (r: Self)
        ensures
            r.spec_ctx() == ctx,
            r.spec_cheater() == cheater,
            r.spec_msg() == msg@,
    {
        CheatDetectedError { ctx, cheater, msg }
    }

    /// The accused party, if the violation is attributable.
    pub fn cheater(&self) -> (r: Option<PartyId>)
        ensures
            r == self.spec_cheater(),
    {
        self.cheater
    }

    /// The diagnostic message.
    pub fn message(&self) -> (r: &String)
        ensures
            r@ == self.spec_msg(),
    {
        &self.msg
    }

    /// The report rendered for operators: the detecting context, the
    /// accused party where one is named, and the diagnostic.
    pub open spec fn spec_render(self) -> Seq<char> {
        self.spec_ctx().spec_render() + ": cheat detected by party "@ + (match self.spec_cheater() {
            Some(p) => spec_decimal(p as nat),
            None => "unknown"@,
        }) + ", "@ + self.spec_msg()
    }

    /// Renders the report, prefixed with the detecting context.
    pub fn render(&self) -> (r: String)
        ensures
            r@ == self.spec_render(),
    {
        let mut s = self.ctx.render();
        s.append(": cheat detected by party ");
        match self.cheater {
            Some(p) => {
                let digits = decimal_string(p);
                s.append(digits.as_str());
            },
            None => {
                s.append("unknown");
            },
        }
        s.append(", ");
        s.append(self.msg.as_str());
        s
    }
}

/// Union of the two failure kinds, used by operations that can fail either
/// way.
#[derive(Clone, Debug)]
pub enum CheatOrUnexpectedError {
    CheatDetected(CheatDetectedError),
    Unexpected(UnexpectedError),
}

impl From<CheatDetectedError> for CheatOrUnexpectedError {
    fn from(e: CheatDetectedError) -> (r: Self) {
        CheatOrUnexpectedError::CheatDetected(e)
    }
}

impl vstd::std_specs::convert::FromSpecImpl<CheatDetectedError> for CheatOrUnexpectedError {
    open spec fn obeys_from_spec() -> bool {
        true
    }

    open spec fn from_spec(e: CheatDetectedError) -> Self {
        CheatOrUnexpectedError::CheatDetected(e)
    }
}

impl From<UnexpectedError> for CheatOrUnexpectedError {
    fn from(e: UnexpectedError) -> (r: Self) {
        CheatOrUnexpectedError::Unexpected(e)
    }
}

impl vstd::std_specs::convert::FromSpecImpl<UnexpectedError> for CheatOrUnexpectedError {
    open spec fn obeys_from_spec() -> bool {
        true
    }

    open spec fn from_spec(e: UnexpectedError) -> Self {
        CheatOrUnexpectedError::Unexpected(e)
    }
}

/// Common interface of every component that participates in the protocol: it
/// exposes its party, its fixed functionality tag, and the sub-protocol tags
/// it depends on (used for startup validation by the composing layer), and
/// builds the context that stamps its errors.
pub trait BaseFunc {
    /// The fixed tag of this functionality.
    spec fn spec_func_id() -> FuncId;

    /// The party this component runs as.
    spec fn spec_party(&self) -> PartyId;

    /// Tags of the sub-protocols this functionality invokes, as declared
    /// for startup validation.
    spec fn spec_required_funcs() -> Seq<FuncId>;

    /// The fixed tag of this functionality.
    fn func_id() -> (r: FuncId)
        ensures
            r == Self::spec_func_id(),
    ;

    /// Tags of the sub-protocols this functionality invokes.
    fn required_funcs() -> (r: Vec<FuncId>)
        ensures
            r@ == Self::spec_required_funcs(),
    ;

    /// The party this component runs as.
    fn party(&self) -> (r: PartyId)
        ensures
            r == self.spec_party(),
    ;

    /// Full address of the instance of this functionality running session
    /// `sid` at this party.
    fn ctx(&self, sid: SessionId) -> (c: FuncContext)
        ensures
            c.party == self.spec_party(),
            c.func == Self::spec_func_id(),
            c.sid == sid,
    {
        FuncContext { party: self.party(), func: Self::func_id(), sid }
    }

    /// An ordinary failure, stamped with this instance's context.
    fn unexpected(&self, sid: SessionId, msg: String) -> (e: UnexpectedError)
        ensures
            e.ctx.party == self.spec_party(),
            e.ctx.func == Self::spec_func_id(),
            e.ctx.sid == sid,
            e.msg@ == msg@,
    {
        UnexpectedError { ctx: self.ctx(sid), msg }
    }

    /// A detected cheat, stamped with this instance's context and accusing
    /// `cheater` where the violation is attributable.
    fn cheat(&self, sid: SessionId, cheater: Option<PartyId>, msg: String) -> (e:
        CheatDetectedError)
        ensures
            e.spec_ctx().party == self.spec_party(),
            e.spec_ctx().func == Self::spec_func_id(),
            e.spec_ctx().sid == sid,
            e.spec_cheater() == cheater,
            e.spec_msg() == msg@,
    {
        CheatDetectedError::new(self.ctx(sid), cheater, msg)
    }
}

/// Deriving a child session id is deterministic: within one run, two sessions
/// that agree on parent tag and counter derive the same child id for the same
/// child tag.
pub proof fn lemma_derive_ssid_deterministic(a: SessionId, b: SessionId, caller: FuncId)
    requires
        a.parent == b.parent,
        a.id == b.id,
    ensures
        a.spec_derive_ssid(caller) == b.spec_derive_ssid(caller),
{
}

/// A derived session id leaves its bottom 16 bits clear: they are the
/// child's local sub-counter space, advanced by `next`.
pub proof fn lemma_derive_ssid_subcounter_space(s: SessionId, caller: FuncId)
    ensures
        s.spec_derive_ssid(caller).id & 0xffff == 0,
{
    let h = spec_session_hash(s.parent, s.id);
    assert((h << 16) & 0xffff == 0) by (bit_vector);
}

} // verus!
