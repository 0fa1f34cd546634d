//! The virtual machine entity, its configuration and its lifecycle.
use crate::error::VelnError;
use crate::text::{hex2, push_hex2};
use vstd::prelude::*;

verus! {

// ---------------------------------------------------------------------------
// Lifecycle
// ---------------------------------------------------------------------------
/// VM power states.
#[derive(Debug, Clone, Copy, PartialEq, Eq, Structural)]
pub enum VmState {
    /// VM does not exist on disk
    Undefined,
    /// VM exists but is not running
    Stopped,
    /// VM is starting up
    Starting,
    /// VM is running
    Running,
    /// VM is shutting down
    Stopping,
    /// VM encountered an error
    Failed,
}

/// The lifecycle's transitions: a VM is defined (stopped) from nothing or
/// from a failure, started and stopped, destroyed when stopped, and may fail
/// while starting, running or stopping.
pub open spec fn transition_allowed(from: VmState, to: VmState) -> bool {
    match (from, to) {
        (VmState::Undefined, VmState::Stopped) => true,
        (VmState::Failed, VmState::Stopped) => true,
        (VmState::Stopped, VmState::Starting) => true,
        (VmState::Stopped, VmState::Undefined) => true,
        (VmState::Starting, VmState::Running) => true,
        (VmState::Starting, VmState::Failed) => true,
        (VmState::Running, VmState::Stopping) => true,
        (VmState::Running, VmState::Failed) => true,
        (VmState::Stopping, VmState::Stopped) => true,
        (VmState::Stopping, VmState::Failed) => true,
        _ => false,
    }
}

/// The lower-case name of a state, as it is shown to users.
pub open spec fn state_name(s: VmState) -> Seq<char> {
    match s {
        VmState::Undefined => "undefined"@,
        VmState::Stopped => "stopped"@,
        VmState::Starting => "starting"@,
        VmState::Running => "running"@,
        VmState::Stopping => "stopping"@,
        VmState::Failed => "failed"@,
    }
}

impl VmState {
    /// Check if state transition is valid.
    /// Returns true if the transition from self to target is allowed.
    pub fn can_transition_to(&self, target: VmState) -> (r: bool)
        ensures
            r == transition_allowed(*self, target),
    {
        match (*self, target) {
            (VmState::Undefined, VmState::Stopped) => true,
            (VmState::Failed, VmState::Stopped) => true,
            (VmState::Stopped, VmState::Starting) => true,
            (VmState::Stopped, VmState::Undefined) => true,
            (VmState::Starting, VmState::Running) => true,
            (VmState::Starting, VmState::Failed) => true,
            (VmState::Running, VmState::Stopping) => true,
            (VmState::Running, VmState::Failed) => true,
            (VmState::Stopping, VmState::Stopped) => true,
            (VmState::Stopping, VmState::Failed) => true,
            _ => false,
        }
    }

    /// The lower-case name of the state ("undefined", "stopped", ...).
    pub fn to_string(&self) -> (s: String)
        ensures
            s@ == state_name(*self),
    {
        match self {
            VmState::Undefined => "undefined".to_owned(),
            VmState::Stopped => "stopped".to_owned(),
            VmState::Starting => "starting".to_owned(),
            VmState::Running => "running".to_owned(),
            VmState::Stopping => "stopping".to_owned(),
            VmState::Failed => "failed".to_owned(),
        }
    }
}

// ---------------------------------------------------------------------------
// Lifecycle laws
// ---------------------------------------------------------------------------
/// No state can transition to itself.
pub proof fn lemma_no_self_transition(s: VmState)
    ensures
        !transition_allowed(s, s),
{
}

/// The documented lifecycle, Undefined → Stopped → Starting → Running →
/// Stopping → Stopped, consists of allowed transitions.
pub proof fn lemma_lifecycle_path()
    ensures
        transition_allowed(VmState::Undefined, VmState::Stopped),
        transition_allowed(VmState::Stopped, VmState::Starting),
        transition_allowed(VmState::Starting, VmState::Running),
        transition_allowed(VmState::Running, VmState::Stopping),
        transition_allowed(VmState::Stopping, VmState::Stopped),
{
}

/// A VM runs only after starting, is removed (undefined) only when stopped,
/// and leaves a failure only by being stopped.
pub proof fn lemma_guarded_states(from: VmState, to: VmState)
    requires
        transition_allowed(from, to),
    ensures
        to == VmState::Running ==> from == VmState::Starting,
        to == VmState::Undefined ==> from == VmState::Stopped,
        from == VmState::Failed ==> to == VmState::Stopped,
        to == VmState::Starting ==> from == VmState::Stopped,
{
}

/// Where each state may go, and from where a VM comes to rest: a defined
/// VM only starts or is removed; a starting VM runs or fails; a running VM
/// stops only through Stopping (or fails); a stopping VM stops or fails; a
/// failed VM is only reset to Stopped; an undefined VM is only defined.
/// So a VM is Stopped only coming from Undefined, Failed or Stopping.
pub proof fn lemma_transitions_from(to: VmState)
    ensures
        transition_allowed(VmState::Undefined, to) <==> to == VmState::Stopped,
        transition_allowed(VmState::Stopped, to) <==> (to == VmState::Starting || to
            == VmState::Undefined),
        transition_allowed(VmState::Starting, to) <==> (to == VmState::Running || to
            == VmState::Failed),
        transition_allowed(VmState::Running, to) <==> (to == VmState::Stopping || to
            == VmState::Failed),
        transition_allowed(VmState::Stopping, to) <==> (to == VmState::Stopped || to
            == VmState::Failed),
        transition_allowed(VmState::Failed, to) <==> to == VmState::Stopped,
        forall|from: VmState|
            #[trigger] transition_allowed(from, VmState::Stopped) <==> (from == VmState::Undefined
                || from == VmState::Failed || from == VmState::Stopping),
{
}

/// Each state is shown under a name of its own: two states with the same
/// name are the same state.
pub proof fn lemma_state_names_distinct(a: VmState, b: VmState)
    ensures
        state_name(a) == state_name(b) ==> a == b,
{
    reveal_strlit("undefined");
    reveal_strlit("stopped");
    reveal_strlit("starting");
    reveal_strlit("running");
    reveal_strlit("stopping");
    reveal_strlit("failed");
    if state_name(a) == state_name(b) {
        assert(state_name(a).len() == state_name(b).len());
        assert(state_name(a)[0] == state_name(b)[0]);
        assert(state_name(a)[2] == state_name(b)[2]);
    }
}

/// Every state reaches Stopped in at most two allowed transitions.
pub proof fn lemma_stopped_reachable(s: VmState)
    ensures
        s == VmState::Stopped || transition_allowed(s, VmState::Stopped) || exists|m: VmState|
            transition_allowed(s, m) && transition_allowed(m, VmState::Stopped),
{
    if s == VmState::Starting {
        assert(transition_allowed(VmState::Starting, VmState::Failed));
        assert(transition_allowed(VmState::Failed, VmState::Stopped));
    } else if s == VmState::Running {
        assert(transition_allowed(VmState::Running, VmState::Stopping));
        assert(transition_allowed(VmState::Stopping, VmState::Stopped));
    }
}

// ---------------------------------------------------------------------------
// UUIDs
// ---------------------------------------------------------------------------
/// UUID type for VM identification.
#[derive(Debug, Clone, PartialEq, Eq, Hash)]
pub struct Uuid(pub String);

impl View for Uuid {
    type V = Seq<char>;

    open spec fn view(&self) -> Seq<char> {
        self.0@
    }
}

/// The byte `i` of a v4 UUID drawn from the clock reading `now`, before the
/// version and variant bits are set.
pub open spec fn uuid_raw_byte(now: u128, i: nat) -> u8 {
    ((now >> ((8 * i) as usize)) ^ ((i * 0x9e37_79b9_7f4a_7c15) as u128)) as u8
}

/// The byte `i` of a v4 UUID drawn from the clock reading `now`: byte 6 holds
/// the version (4) in its high nibble, byte 8 the variant (binary 10) in its
/// two high bits.
pub open spec fn uuid_byte(now: u128, i: nat) -> u8 {
    let raw = uuid_raw_byte(now, i);
    if i == 6 {
        (raw & 0x0f) | 0x40
    } else if i == 8 {
        (raw & 0x3f) | 0x80
    } else {
        raw
    }
}

/// The sixteen bytes of the v4 UUID drawn from the clock reading `now`.
pub open spec fn uuid_bytes(now: u128) -> Seq<u8> {
    Seq::new(16, |i: int| uuid_byte(now, i as nat))
}

/// The text of the first `n` bytes of a UUID: two lower-case hex digits per
/// byte, with a dash before bytes 4, 6, 8 and 10.
pub open spec fn uuid_text_upto(bytes: Seq<u8>, n: nat) -> Seq<char>
    decreases n,
{
    if n == 0 {
        Seq::empty()
    } else {
        let k = (n - 1) as nat;
        let dash: Seq<char> = if k == 4 || k == 6 || k == 8 || k == 10 {
            seq!['-']
        } else {
            Seq::empty()
        };
        uuid_text_upto(bytes, k) + dash + hex2(bytes[k as int])
    }
}

/// The canonical 8-4-4-4-12 text of a UUID's sixteen bytes.
pub open spec fn uuid_text(bytes: Seq<u8>) -> Seq<char> {
    uuid_text_upto(bytes, 16)
}

/// Whether a character is a lower-case hexadecimal digit (`0-9`, `a-f`).
pub open spec fn is_lower_hex(c: char) -> bool {
    ('0' <= c && c <= '9') || ('a' <= c && c <= 'f')
}

/// Whether a position of a UUID text holds a dash: 8, 13, 18 or 23.
pub open spec fn uuid_dash_at(j: int) -> bool {
    j == 8 || j == 13 || j == 18 || j == 23
}

/// The shape of a v4 UUID text: 36 characters, dashes at positions 8, 13,
/// 18 and 23 and lower-case hexadecimal digits everywhere else, the version
/// digit '4' at position 14, and a variant digit '8', '9', 'a' or 'b' at
/// position 19.
pub open spec fn is_v4_uuid_text(t: Seq<char>) -> bool {
    &&& t.len() == 36
    &&& forall|j: int| 0 <= j < 36 && !uuid_dash_at(j) ==> is_lower_hex(#[trigger] t[j])
    &&& t[8] == '-'
    &&& t[13] == '-'
    &&& t[18] == '-'
    &&& t[23] == '-'
    &&& t[14] == '4'
    &&& (t[19] == '8' || t[19] == '9' || t[19] == 'a' || t[19] == 'b')
}

proof fn lemma_uuid_text_len(bytes: Seq<u8>, n: nat)
    requires
        n <= bytes.len(),
    ensures
        uuid_text_upto(bytes, n).len() == 2 * n + (if n > 10 {
            4int
        } else if n > 8 {
            3int
        } else if n > 6 {
            2int
        } else if n > 4 {
            1int
        } else {
            0int
        }),
    decreases n,
{
    if n > 0 {
        lemma_uuid_text_len(bytes, (n - 1) as nat);
    }
}

proof fn lemma_uuid_text_prefix(bytes: Seq<u8>, n: nat, m: nat)
    requires
        m <= n <= bytes.len(),
    ensures
        uuid_text_upto(bytes, m).len() <= uuid_text_upto(bytes, n).len(),
        forall|j: int|
            0 <= j < uuid_text_upto(bytes, m).len() ==> #[trigger] uuid_text_upto(bytes, n)[j]
                == uuid_text_upto(bytes, m)[j],
    decreases n - m,
{
    if m < n {
        lemma_uuid_text_prefix(bytes, (n - 1) as nat, m);
        lemma_uuid_text_len(bytes, (n - 1) as nat);
        lemma_uuid_text_len(bytes, m);
    }
}

proof fn lemma_hex_digit_lower(d: nat)
    requires
        d < 16,
    ensures
        is_lower_hex(crate::text::hex_digit(d)),
{
    let c = crate::text::hex_digit(d);
    if d < 10 {
        assert(c as int == 48 + d);
    } else {
        assert(c as int == 87 + d);
    }
}

proof fn lemma_uuid_text_digits(bytes: Seq<u8>, n: nat)
    requires
        n <= bytes.len(),
    ensures
        forall|j: int|
            0 <= j < uuid_text_upto(bytes, n).len() && !uuid_dash_at(j) ==> is_lower_hex(
                #[trigger] uuid_text_upto(bytes, n)[j],
            ),
    decreases n,
{
    if n > 0 {
        let k = (n - 1) as nat;
        lemma_uuid_text_digits(bytes, k);
        lemma_uuid_text_len(bytes, k);
        let b = bytes[k as int];
        lemma_hex_digit_lower((b / 16) as nat);
        lemma_hex_digit_lower((b % 16) as nat);
        let prev = uuid_text_upto(bytes, k);
        let t = uuid_text_upto(bytes, n);
        assert forall|j: int| 0 <= j < t.len() && !uuid_dash_at(j) implies is_lower_hex(
            #[trigger] t[j],
        ) by {
            if j < prev.len() {
                assert(t[j] == prev[j]);
            } else if j >= t.len() - 2 {
                assert(t[j] == hex2(b)[j - (t.len() - 2)]);
            }
        }
    }
}

/// The text of a v4 UUID's bytes has the canonical v4 shape.
pub proof fn lemma_uuid_v4_shape(bytes: Seq<u8>)
    requires
        bytes.len() == 16,
        bytes[6] / 16 == 4,
        bytes[8] / 16 == 8 || bytes[8] / 16 == 9 || bytes[8] / 16 == 10 || bytes[8] / 16 == 11,
    ensures
        is_v4_uuid_text(uuid_text(bytes)),
{
    let t = uuid_text(bytes);
    lemma_uuid_text_digits(bytes, 16);
    lemma_uuid_text_len(bytes, 16);
    lemma_uuid_text_len(bytes, 4);
    lemma_uuid_text_len(bytes, 6);
    lemma_uuid_text_len(bytes, 8);
    lemma_uuid_text_len(bytes, 10);
    lemma_uuid_text_prefix(bytes, 16, 5);
    lemma_uuid_text_prefix(bytes, 16, 7);
    lemma_uuid_text_prefix(bytes, 16, 9);
    lemma_uuid_text_prefix(bytes, 16, 11);
    assert(uuid_text_upto(bytes, 5)[8] == '-');
    assert(uuid_text_upto(bytes, 7)[13] == '-');
    assert(uuid_text_upto(bytes, 7)[14] == hex_digit_of(bytes[6] / 16));
    assert(uuid_text_upto(bytes, 9)[18] == '-');
    assert(uuid_text_upto(bytes, 9)[19] == hex_digit_of(bytes[8] / 16));
    assert(uuid_text_upto(bytes, 11)[23] == '-');
}

spec fn hex_digit_of(d: u8) -> char {
    crate::text::hex_digit(d as nat)
}

/// The version and variant bits of the v4 UUID bytes drawn from any clock
/// reading.
pub proof fn lemma_uuid_bytes_v4(now: u128)
    ensures
        uuid_bytes(now).len() == 16,
        uuid_bytes(now)[6] / 16 == 4,
        uuid_bytes(now)[8] / 16 == 8 || uuid_bytes(now)[8] / 16 == 9 || uuid_bytes(now)[8] / 16
            == 10 || uuid_bytes(now)[8] / 16 == 11,
{
    let r6 = uuid_raw_byte(now, 6);
    let r8 = uuid_raw_byte(now, 8);
    assert(((r6 & 0x0f) | 0x40) / 16 == 4) by (bit_vector);
    assert(((r8 & 0x3f) | 0x80) / 16 == 8 || ((r8 & 0x3f) | 0x80) / 16 == 9 || ((r8 & 0x3f)
        | 0x80) / 16 == 10 || ((r8 & 0x3f) | 0x80) / 16 == 11) by (bit_vector);
}

proof fn lemma_uuid_text_injective(x: Seq<u8>, y: Seq<u8>, n: nat)
    requires
        n <= 16,
        x.len() == 16,
        y.len() == 16,
        uuid_text_upto(x, n) == uuid_text_upto(y, n),
    ensures
        forall|i: int| 0 <= i < n ==> x[i] == y[i],
    decreases n,
{
    if n > 0 {
        let k = (n - 1) as nat;
        let tx = uuid_text_upto(x, n);
        let ty = uuid_text_upto(y, n);
        lemma_uuid_text_len(x, k);
        lemma_uuid_text_len(y, k);
        let px = uuid_text_upto(x, k);
        let py = uuid_text_upto(y, k);
        assert(px =~= tx.take(px.len() as int));
        assert(py =~= ty.take(py.len() as int));
        lemma_uuid_text_injective(x, y, k);
        assert(hex2(x[k as int]) =~= tx.skip(tx.len() - 2));
        assert(hex2(y[k as int]) =~= ty.skip(ty.len() - 2));
        crate::text::lemma_hex2_injective(x[k as int], y[k as int]);
    }
}

/// Two clock readings that differ in their low 48 bits (in nanoseconds,
/// about 78 hours) give different UUIDs.
pub proof fn lemma_distinct_readings_distinct_uuids(a: u128, b: u128)
    requires
        a & 0xffff_ffff_ffff != b & 0xffff_ffff_ffff,
    ensures
        uuid_text(uuid_bytes(a)) != uuid_text(uuid_bytes(b)),
{
    if uuid_text(uuid_bytes(a)) == uuid_text(uuid_bytes(b)) {
        lemma_uuid_text_injective(uuid_bytes(a), uuid_bytes(b), 16);
        assert(uuid_bytes(a)[0] == uuid_bytes(b)[0]);
        assert(uuid_bytes(a)[1] == uuid_bytes(b)[1]);
        assert(uuid_bytes(a)[2] == uuid_bytes(b)[2]);
        assert(uuid_bytes(a)[3] == uuid_bytes(b)[3]);
        assert(uuid_bytes(a)[4] == uuid_bytes(b)[4]);
        assert(uuid_bytes(a)[5] == uuid_bytes(b)[5]);
        let c1: u128 = 0x9e37_79b9_7f4a_7c15;
        let c2: u128 = 0x1_3c6e_f372_fe94_f82a;
        let c3: u128 = 0x1_daa6_6d2c_7ddf_743f;
        let c4: u128 = 0x2_78dd_e6e5_fd29_f054;
        let c5: u128 = 0x3_1715_609f_7c74_6c69;
        assert(uuid_raw_byte(a, 0) == ((a >> 0usize) ^ 0u128) as u8);
        assert(uuid_raw_byte(a, 1) == ((a >> 8usize) ^ c1) as u8);
        assert(uuid_raw_byte(a, 2) == ((a >> 16usize) ^ c2) as u8);
        assert(uuid_raw_byte(a, 3) == ((a >> 24usize) ^ c3) as u8);
        assert(uuid_raw_byte(a, 4) == ((a >> 32usize) ^ c4) as u8);
        assert(uuid_raw_byte(a, 5) == ((a >> 40usize) ^ c5) as u8);
        assert(uuid_raw_byte(b, 0) == ((b >> 0usize) ^ 0u128) as u8);
        assert(uuid_raw_byte(b, 1) == ((b >> 8usize) ^ c1) as u8);
        assert(uuid_raw_byte(b, 2) == ((b >> 16usize) ^ c2) as u8);
        assert(uuid_raw_byte(b, 3) == ((b >> 24usize) ^ c3) as u8);
        assert(uuid_raw_byte(b, 4) == ((b >> 32usize) ^ c4) as u8);
        assert(uuid_raw_byte(b, 5) == ((b >> 40usize) ^ c5) as u8);
        assert(a & 0xffff_ffff_ffff == b & 0xffff_ffff_ffff) by (bit_vector)
            requires
                ((a >> 0usize) ^ 0u128) as u8 == ((b >> 0usize) ^ 0u128) as u8,
                ((a >> 8usize) ^ c1) as u8 == ((b >> 8usize) ^ c1) as u8,
                ((a >> 16usize) ^ c2) as u8 == ((b >> 16usize) ^ c2) as u8,
                ((a >> 24usize) ^ c3) as u8 == ((b >> 24usize) ^ c3) as u8,
                ((a >> 32usize) ^ c4) as u8 == ((b >> 32usize) ^ c4) as u8,
                ((a >> 40usize) ^ c5) as u8 == ((b >> 40usize) ^ c5) as u8,
        ;
    }
}

/// `SystemTime::now`: the current time of the system clock.
#[verifier::external_type_specification]
#[verifier::external_body]
pub struct ExSystemTime(std::time::SystemTime);

/// The error of `SystemTime::duration_since` for a time before the reference.
#[verifier::external_type_specification]
#[verifier::external_body]
pub struct ExSystemTimeError(std::time::SystemTimeError);

/// Reads the system clock with `SystemTime::now`. Nothing is promised of the
/// reading: it depends on the machine and the moment.
#[verifier::external_body]
fn system_time_now() -> std::time::SystemTime {
    std::time::SystemTime::now()
}

/// The time elapsed from the Unix epoch to `t`, by `SystemTime::duration_since`;
/// an error when `t` is before the epoch. Nothing more is promised here.
#[verifier::external_body]
fn since_unix_epoch(t: &std::time::SystemTime) -> core::result::Result<
    core::time::Duration,
    std::time::SystemTimeError,
> {
    t.duration_since(std::time::UNIX_EPOCH)
}

/// The whole number of nanoseconds in a duration, by `Duration::as_nanos`.
/// No contract: the duration is opaque here.
#[verifier::external_body]
fn duration_as_nanos(d: &core::time::Duration) -> u128 {
    d.as_nanos()
}

/// The whole number of seconds in a duration, by `Duration::as_secs`.
/// No contract: the duration is opaque here.
#[verifier::external_body]
fn duration_as_secs(d: &core::time::Duration) -> u64 {
    d.as_secs()
}

/// Seconds since the Unix epoch by the system clock, or 0 when the clock is
/// before it. Nothing is promised of the reading.
pub fn epoch_seconds() -> u64 {
    let now = system_time_now();
    match since_unix_epoch(&now) {
        Ok(d) => duration_as_secs(&d),
        Err(_) => 0,
    }
}

/// Nanoseconds since the Unix epoch, or 0 when the clock is before it.
fn clock_nanos() -> u128 {
    let now = system_time_now();
    match since_unix_epoch(&now) {
        Ok(d) => duration_as_nanos(&d),
        Err(_) => 0,
    }
}

impl Uuid {
    /// The v4 UUID drawn from the clock reading `now` (nanoseconds since the
    /// Unix epoch): byte `i` is taken from the reading shifted by `8 * i`
    /// bits, mixed with `i` times a fixed odd constant.
    pub fn from_clock(now: u128) -> (u: Uuid)
        ensures
            u@ == uuid_text(uuid_bytes(now)),
            is_v4_uuid_text(u@),
    {
        let mut s = String::new();
        let mut i: usize = 0;
        while i < 16
            invariant
                i <= 16,
                s@ == uuid_text_upto(uuid_bytes(now), i as nat),
            decreases 16 - i,
        {
            let sh: usize = i * 8;
            let mix: u128 = (i as u128) * 0x9e37_79b9_7f4a_7c15u128;
            let raw: u8 = ((now >> sh) ^ mix) as u8;
            let b: u8 = if i == 6 {
                (raw & 0x0f) | 0x40
            } else if i == 8 {
                (raw & 0x3f) | 0x80
            } else {
                raw
            };
            assert(b == uuid_bytes(now)[i as int]);
            if i == 4 || i == 6 || i == 8 || i == 10 {
                s.push('-');
            }
            push_hex2(&mut s, b);
            proof {
                let prev = uuid_text_upto(uuid_bytes(now), i as nat);
                if i == 4 || i == 6 || i == 8 || i == 10 {
                    assert(prev.push('-') + hex2(b) =~= prev + seq!['-'] + hex2(b));
                } else {
                    assert(prev + hex2(b) =~= prev + Seq::<char>::empty() + hex2(b));
                }
            }
            i = i + 1;
        }
        proof {
            lemma_uuid_bytes_v4(now);
            lemma_uuid_v4_shape(uuid_bytes(now));
        }
        Uuid(s)
    }

    /// Generate a new v4 UUID from the system clock.
    pub fn new_v4() -> (u: Uuid)
        ensures
            is_v4_uuid_text(u@),
    {
        Uuid::from_clock(clock_nanos())
    }
}

// ---------------------------------------------------------------------------
// Configuration
// ---------------------------------------------------------------------------
/// Network backend types for VM networking.
#[derive(Debug, Clone)]
pub enum NetworkBackend {
    /// TAP interface + Bridge (simple, default)
    /// Format: bridge0, bridge1, etc.
    TapBridge { bridge: String },
    /// Netgraph + VALE switch (high performance)
    /// Format: vale0, vale1, etc.
    Vale { switch: String },
}

/// The model of a network backend: its kind and device name.
pub enum NetworkBackendView {
    TapBridge { bridge: Seq<char> },
    Vale { switch: Seq<char> },
}

impl View for NetworkBackend {
    type V = NetworkBackendView;

    open spec fn view(&self) -> NetworkBackendView {
        match self {
            NetworkBackend::TapBridge { bridge } => NetworkBackendView::TapBridge {
                bridge: bridge@,
            },
            NetworkBackend::Vale { switch } => NetworkBackendView::Vale { switch: switch@ },
        }
    }
}

/// The default backend: TAP on `bridge0`.
pub open spec fn default_backend_view() -> NetworkBackendView {
    NetworkBackendView::TapBridge { bridge: "bridge0"@ }
}

impl Default for NetworkBackend {
    fn default() -> (b: Self)
        ensures
            b@ == default_backend_view(),
    {
        NetworkBackend::TapBridge { bridge: "bridge0".to_owned() }
    }
}

/// Network configuration for VM.
#[derive(Debug, Clone)]
pub struct NetworkConfig {
    /// Network backend (TAP+bridge or VALE)
    pub backend: NetworkBackend,
    /// MAC address (if None, auto-generated)
    pub mac: Option<String>,
}

/// The model of a network configuration.
pub struct NetworkConfigView {
    pub backend: NetworkBackendView,
    pub mac: Option<Seq<char>>,
}

/// The model of an optional text.
pub open spec fn opt_view(o: Option<String>) -> Option<Seq<char>> {
    match o {
        Some(s) => Some(s@),
        None => None,
    }
}

impl View for NetworkConfig {
    type V = NetworkConfigView;

    open spec fn view(&self) -> NetworkConfigView {
        NetworkConfigView { backend: self.backend@, mac: opt_view(self.mac) }
    }
}

/// The default network: TAP on `bridge0` with a generated MAC address.
pub open spec fn default_network_view() -> NetworkConfigView {
    NetworkConfigView { backend: default_backend_view(), mac: None }
}

impl Default for NetworkConfig {
    fn default() -> (n: Self)
        ensures
            n@ == default_network_view(),
    {
        NetworkConfig { backend: NetworkBackend::default(), mac: None }
    }
}

/// Console types supported by bhyve.
#[derive(Debug, Clone, Copy, PartialEq, Eq, Structural)]
pub enum ConsoleType {
    /// Local TTY device
    Tty,
    /// Null console (background)
    Null,
    /// Framebuffer with VNC
    Framebuffer { vnc_port: u16 },
}

/// VM hardware configuration.
#[derive(Debug, Clone)]
pub struct VmConfig {
    /// Number of virtual CPUs
    pub cpus: u8,
    /// Memory in megabytes
    pub memory_mb: u64,
    /// Disk size in gigabytes
    pub disk_gb: u64,
    /// Network configuration
    pub network: NetworkConfig,
    /// Console type
    pub console: ConsoleType,
}

/// The model of a hardware configuration.
pub struct VmConfigView {
    pub cpus: u8,
    pub memory_mb: u64,
    pub disk_gb: u64,
    pub network: NetworkConfigView,
    pub console: ConsoleType,
}

impl View for VmConfig {
    type V = VmConfigView;

    open spec fn view(&self) -> VmConfigView {
        VmConfigView {
            cpus: self.cpus,
            memory_mb: self.memory_mb,
            disk_gb: self.disk_gb,
            network: self.network@,
            console: self.console,
        }
    }
}

/// The default hardware: 2 CPUs, 1024 MB of memory, a 20 GB disk, the
/// default network and a TTY console.
pub open spec fn default_config_view() -> VmConfigView {
    VmConfigView {
        cpus: 2,
        memory_mb: 1024,
        disk_gb: 20,
        network: default_network_view(),
        console: ConsoleType::Tty,
    }
}

impl Default for VmConfig {
    fn default() -> (c: Self)
        ensures
            c@ == default_config_view(),
    {
        VmConfig {
            cpus: 2,
            memory_mb: 1024,
            disk_gb: 20,
            network: NetworkConfig::default(),
            console: ConsoleType::Tty,
        }
    }
}

// ---------------------------------------------------------------------------
// The VM entity
// ---------------------------------------------------------------------------
/// Virtual Machine entity.
#[derive(Debug, Clone)]
pub struct VirtualMachine {
    /// Unique identifier (never changes, even if VM is renamed)
    pub uuid: Uuid,
    /// Human-readable name (can be changed)
    pub name: String,
    /// Current power state
    pub state: VmState,
    /// Hardware configuration
    pub config: VmConfig,
}

/// The model of a VM.
pub struct VmView {
    pub uuid: Seq<char>,
    pub name: Seq<char>,
    pub state: VmState,
    pub config: VmConfigView,
}

impl View for VirtualMachine {
    type V = VmView;

    open spec fn view(&self) -> VmView {
        VmView { uuid: self.uuid@, name: self.name@, state: self.state, config: self.config@ }
    }
}

impl VirtualMachine {
    /// Create a new VM in the Undefined state with generated UUID.
    pub fn new(name: String) -> (vm: Self)
        ensures
            vm.name@ == name@,
            vm.state == VmState::Undefined,
            vm.config@ == default_config_view(),
            is_v4_uuid_text(vm.uuid@),
    {
        VirtualMachine {
            uuid: Uuid::new_v4(),
            name,
            state: VmState::Undefined,
            config: VmConfig::default(),
        }
    }

    /// Create a VM with specific configuration and generated UUID.
    pub fn with_config(name: String, config: VmConfig) -> (vm: Self)
        ensures
            vm.name@ == name@,
            vm.state == VmState::Undefined,
            vm.config@ == config@,
            is_v4_uuid_text(vm.uuid@),
    {
        VirtualMachine { uuid: Uuid::new_v4(), name, state: VmState::Undefined, config }
    }

    /// Create a VM with specific UUID, name, and configuration.
    /// Used when loading from storage.
    pub fn with_uuid(uuid: Uuid, name: String, config: VmConfig) -> (vm: Self)
        ensures
            vm@ == (VmView {
                uuid: uuid@,
                name: name@,
                state: VmState::Undefined,
                config: config@,
            }),
    {
        VirtualMachine { uuid, name, state: VmState::Undefined, config }
    }

    /// A VM defined with the given hardware (and the default network and
    /// console) and a fresh UUID, in the Stopped state.
    pub fn defined(name: String, cpus: u8, memory_mb: u64, disk_gb: u64) -> (vm: Self)
        ensures
            vm.name@ == name@,
            vm.state == VmState::Stopped,
            vm.config@ == (VmConfigView { cpus, memory_mb, disk_gb, ..default_config_view() }),
            is_v4_uuid_text(vm.uuid@),
    {
        let config = VmConfig { cpus, memory_mb, disk_gb, ..VmConfig::default() };
        let mut vm = VirtualMachine::with_config(name, config);
        let r = vm.transition_to(VmState::Stopped);
        vm
    }

    /// Transition to a new state.
    /// Fails with `VelnError::InvalidStateTransition` (naming both states) if
    /// the lifecycle does not allow the transition; the VM is then unchanged.
    pub fn transition_to(&mut self, new_state: VmState) -> (r: crate::error::Result<()>)
        ensures
            transition_allowed(old(self).state, new_state) ==> r is Ok && final(self)@ == (VmView {
                state: new_state,
                ..old(self)@
            }),
            !transition_allowed(old(self).state, new_state) ==> final(self)@ == old(self)@ && (
            r matches Err(VelnError::InvalidStateTransition(from, to)) && from@ == state_name(
                old(self).state,
            ) && to@ == state_name(new_state)),
    {
        if !self.state.can_transition_to(new_state) {
            return Err(VelnError::InvalidStateTransition(self.state.to_string(), new_state.to_string()));
        }
        self.state = new_state;
        Ok(())
    }
}

} // verus!
