//! The hotkey reliability manager: registers the two global hotkeys against
//! the OS hotkey table and retries the whole batch, with bounded backoff,
//! when any registration is refused. Partial success is never kept between
//! attempts, so the two bindings can never silently diverge.

use vstd::prelude::*;

use crate::config::Config;
use crate::constants::{DEFAULT_MAX_RETRIES, HOT_KEY_SWITCH_MODE_ID, HOT_KEY_TOGGLE_ID};
use crate::parse_hotkey::{parse_hotkey, spec_parse_hotkey};

verus! {

/// Where a logical hotkey currently stands with the OS hotkey table.
#[derive(Clone, Copy, Debug, PartialEq, Eq, Structural)]
pub enum RegistrationStatus {
    /// Not registered with the OS.
    Unregistered,
    /// Registered with the OS by the last batch.
    Registered,
    /// Dropped for an atomic batch retry that is about to run.
    RetryPending,
}

/// One logical global hotkey: its id, the parsed (modifier mask, key code)
/// pair, and its current registration status.
#[derive(Clone, Copy, Debug, PartialEq, Eq, Structural)]
pub struct HotkeyBinding {
    /// The logical hotkey id handed to the OS.
    pub id: i32,
    /// The modifier mask of the binding.
    pub modifiers: u32,
    /// The virtual-key code of the binding.
    pub key_code: u32,
    /// Where the binding stands with the OS hotkey table.
    pub status: RegistrationStatus,
}

/// The OS error code for a hotkey already claimed by another process.
pub const ERROR_HOTKEY_ALREADY_REGISTERED: u32 = 1409;
/// The OS error code for releasing a binding that was never registered.
pub const ERROR_HOTKEY_NOT_REGISTERED: u32 = 1408;

/// The known reasons a hotkey registration call fails.
#[derive(Clone, Copy, Debug, PartialEq, Eq, Structural)]
pub enum HotkeyErrorKind {
    /// The combination is already claimed by another process.
    AlreadyClaimed,
    /// A binding that was never registered was released, or the id is
    /// invalid.
    NotRegistered,
    /// Any other error code.
    Unknown,
}

/// The reason the OS error code `code` names.
pub open spec fn spec_classify_hotkey_error(code: u32) -> HotkeyErrorKind {
    if code == ERROR_HOTKEY_ALREADY_REGISTERED {
        HotkeyErrorKind::AlreadyClaimed
    } else if code == ERROR_HOTKEY_NOT_REGISTERED {
        HotkeyErrorKind::NotRegistered
    } else {
        HotkeyErrorKind::Unknown
    }
}

/// Translate an OS error code into its known reason, for logging.
pub fn classify_hotkey_error(code: u32) -> (r: HotkeyErrorKind)
    ensures
        r == spec_classify_hotkey_error(code),
{
    if code == ERROR_HOTKEY_ALREADY_REGISTERED {
        HotkeyErrorKind::AlreadyClaimed
    } else if code == ERROR_HOTKEY_NOT_REGISTERED {
        HotkeyErrorKind::NotRegistered
    } else {
        HotkeyErrorKind::Unknown
    }
}

/// The OS hotkey-table capabilities the manager drives. No behaviour is
/// assumed of them: the manager's contracts hold whatever an implementation
/// returns.
pub trait HotkeyOs {
    /// Try to register a global hotkey; on refusal the OS error code comes
    /// back.
    fn register_hotkey(&mut self, id: i32, modifiers: u32, key_code: u32) -> Result<(), u32>;

    /// Release a registration; true when the OS knew the binding.
    fn unregister_hotkey(&mut self, id: i32) -> bool;

    /// Wait the fixed backoff before the next batch attempt.
    fn backoff_delay(&mut self);
}

/// What a registration run reported.
#[derive(Debug)]
pub struct RegistrationReport {
    /// How many whole-batch attempts were made.
    pub attempts: u32,
    /// Whether the last batch registered every binding.
    pub all_registered: bool,
    /// The id and OS error code of each refusal in the last batch.
    pub failures: Vec<(i32, u32)>,
}

/// True when every binding has status `status`.
pub open spec fn all_status(bindings: Seq<HotkeyBinding>, status: RegistrationStatus) -> bool {
    forall|i: int| 0 <= i < bindings.len() ==> bindings[i].status == status
}

/// True when `after` holds the same bindings as `before` — same ids, masks
/// and key codes, in the same order — with only the statuses free.
pub open spec fn same_keys(before: Seq<HotkeyBinding>, after: Seq<HotkeyBinding>) -> bool {
    &&& after.len() == before.len()
    &&& forall|i: int| 0 <= i < before.len() ==> (#[trigger] after[i]).id == before[i].id
        && after[i].modifiers == before[i].modifiers && after[i].key_code == before[i].key_code
}

/// True when some binding carries the id `id`.
pub open spec fn names_binding(id: i32, bindings: Seq<HotkeyBinding>) -> bool {
    exists|j: int| #![trigger bindings[j]] 0 <= j < bindings.len() && bindings[j].id == id
}

/// Every recorded refusal names one of the bindings by its id.
pub open spec fn failures_name_bindings(
    failures: Seq<(i32, u32)>,
    bindings: Seq<HotkeyBinding>,
) -> bool {
    forall|k: int| #![trigger failures[k]]
        0 <= k < failures.len() ==> names_binding(failures[k].0, bindings)
}

/// An id that names a binding keeps doing so across a status change: only
/// the ids matter, and `same_keys` keeps them.
proof fn lemma_names_binding_transfer(id: i32, before: Seq<HotkeyBinding>, after: Seq<
    HotkeyBinding,
>)
    requires
        names_binding(id, before),
        same_keys(before, after),
    ensures
        names_binding(id, after),
{
    let j0 = choose|j: int| 0 <= j < before.len() && (#[trigger] before[j]).id == id;
    assert(after[j0].id == before[j0].id);
}

/// Refusals keep naming the bindings across a status change.
proof fn lemma_failures_transfer(
    failures: Seq<(i32, u32)>,
    before: Seq<HotkeyBinding>,
    after: Seq<HotkeyBinding>,
)
    requires
        failures_name_bindings(failures, before),
        same_keys(before, after),
    ensures
        failures_name_bindings(failures, after),
{
    assert forall|k: int| #![trigger failures[k]]
        0 <= k < failures.len() implies names_binding(failures[k].0, after) by {
        assert(names_binding(failures[k].0, before));
        lemma_names_binding_transfer(failures[k].0, before, after);
    };
}

/// Try to register every binding once, in order. Bindings the OS accepts are
/// marked registered, refused ones unregistered, and each refusal is recorded
/// with its error code. The batch succeeded exactly when no refusal was
/// recorded.
fn register_batch<O: HotkeyOs>(os: &mut O, bindings: &mut Vec<HotkeyBinding>) -> (failures: Vec<
    (i32, u32),
>)
    ensures
        same_keys(old(bindings)@, final(bindings)@),
        forall|i: int| 0 <= i < final(bindings)@.len() ==> (#[trigger] final(bindings)@[i]).status
            == RegistrationStatus::Registered || final(bindings)@[i].status
            == RegistrationStatus::Unregistered,
        (failures@.len() == 0) <==> all_status(final(bindings)@, RegistrationStatus::Registered),
        failures_name_bindings(failures@, final(bindings)@),
{
    let mut failures: Vec<(i32, u32)> = Vec::new();
    let n = bindings.len();
    let mut i: usize = 0;
    while i < n
        invariant
            i <= n,
            n == bindings@.len(),
            same_keys(old(bindings)@, bindings@),
            forall|j: int| 0 <= j < i ==> (#[trigger] bindings@[j]).status
                == RegistrationStatus::Registered || bindings@[j].status
                == RegistrationStatus::Unregistered,
            (failures@.len() == 0) ==> (forall|j: int| 0 <= j < i ==> (#[trigger] bindings@[j]).status
                == RegistrationStatus::Registered),
            (failures@.len() > 0) ==> (exists|j: int| 0 <= j < i && (#[trigger] bindings@[j]).status
                == RegistrationStatus::Unregistered),
            failures_name_bindings(failures@, bindings@),
        decreases n - i,
    {
        let b = bindings[i];
        let ghost before = bindings@;
        match os.register_hotkey(b.id, b.modifiers, b.key_code) {
            Ok(_) => {
                let mut nb = b;
                nb.status = RegistrationStatus::Registered;
                bindings[i] = nb;
                proof {
                    if failures@.len() > 0 {
                        let j = choose|j: int| 0 <= j < i && (#[trigger] before[j]).status
                            == RegistrationStatus::Unregistered;
                        assert(bindings@[j].status == RegistrationStatus::Unregistered);
                    }
                    assert(same_keys(before, bindings@));
                    lemma_failures_transfer(failures@, before, bindings@);
                }
            },
            Err(code) => {
                let mut nb = b;
                nb.status = RegistrationStatus::Unregistered;
                bindings[i] = nb;
                let ghost earlier = failures@;
                failures.push((b.id, code));
                proof {
                    assert(bindings@[i as int].status == RegistrationStatus::Unregistered);
                    assert(same_keys(before, bindings@));
                    lemma_failures_transfer(earlier, before, bindings@);
                    assert(bindings@[i as int].id == b.id);
                    assert forall|k: int| #![trigger failures@[k]]
                        0 <= k < failures@.len() implies names_binding(
                        failures@[k].0,
                        bindings@,
                    ) by {
                        if k < earlier.len() {
                            assert(failures@[k] == earlier[k]);
                            assert(names_binding(earlier[k].0, bindings@));
                        } else {
                            assert(failures@[k] == (b.id, code));
                            assert(bindings@[i as int].id == failures@[k].0);
                        }
                    };
                }
            },
        }
        i += 1;
    }
    failures
}

/// Release every binding from the OS hotkey table and mark it unregistered.
pub fn unregister_all_hotkeys<O: HotkeyOs>(os: &mut O, bindings: &mut Vec<HotkeyBinding>)
    ensures
        same_keys(old(bindings)@, final(bindings)@),
        all_status(final(bindings)@, RegistrationStatus::Unregistered),
{
    let n = bindings.len();
    let mut i: usize = 0;
    while i < n
        invariant
            i <= n,
            n == bindings@.len(),
            same_keys(old(bindings)@, bindings@),
            forall|j: int| 0 <= j < i ==> (#[trigger] bindings@[j]).status
                == RegistrationStatus::Unregistered,
        decreases n - i,
    {
        let b = bindings[i];
        os.unregister_hotkey(b.id);
        let mut nb = b;
        nb.status = RegistrationStatus::Unregistered;
        bindings[i] = nb;
        i += 1;
    }
}

/// Mark every binding as waiting for the atomic batch retry.
fn mark_retry_pending(bindings: &mut Vec<HotkeyBinding>)
    ensures
        same_keys(old(bindings)@, final(bindings)@),
        all_status(final(bindings)@, RegistrationStatus::RetryPending),
{
    let n = bindings.len();
    let mut i: usize = 0;
    while i < n
        invariant
            i <= n,
            n == bindings@.len(),
            same_keys(old(bindings)@, bindings@),
            forall|j: int| 0 <= j < i ==> (#[trigger] bindings@[j]).status
                == RegistrationStatus::RetryPending,
        decreases n - i,
    {
        let b = bindings[i];
        let mut nb = b;
        nb.status = RegistrationStatus::RetryPending;
        bindings[i] = nb;
        i += 1;
    }
}

/// One whole-batch attempt under the atomic-release rule: try every binding
/// once; if any registration was refused, release every binding again —
/// including those the OS had just accepted — before returning. So after any
/// failed attempt, between retries as at exhaustion, no binding of a partial
/// success stays registered.
pub fn register_batch_atomic<O: HotkeyOs>(os: &mut O, bindings: &mut Vec<HotkeyBinding>) -> (
    failures: Vec<(i32, u32)>)
    ensures
        same_keys(old(bindings)@, final(bindings)@),
        (failures@.len() == 0) <==> all_status(final(bindings)@, RegistrationStatus::Registered),
        failures@.len() > 0 ==> all_status(final(bindings)@, RegistrationStatus::Unregistered),
        failures_name_bindings(failures@, final(bindings)@),
{
    let failures = register_batch(os, bindings);
    if failures.len() > 0 {
        let ghost mid = bindings@;
        unregister_all_hotkeys(os, bindings);
        proof {
            lemma_failures_transfer(failures@, mid, bindings@);
            let j0 = choose|j: int|
                0 <= j < mid.len() && (#[trigger] mid[j]).status != RegistrationStatus::Registered;
            assert(bindings@[j0].status == RegistrationStatus::Unregistered);
            assert(!all_status(bindings@, RegistrationStatus::Registered));
        }
    }
    failures
}

/// Register the whole batch of bindings, retrying the entire batch after a
/// backoff while any registration is refused and the retry budget lasts.
///
/// The manager makes at most `max_retries + 1` batch attempts, and exactly
/// that many when every attempt has a refusal. Each attempt is atomic
/// ([`register_batch_atomic`]): partial success is never kept, so at exit
/// either every binding is registered or none is. An empty batch — nothing
/// configured, or nothing that parsed — needs no OS call and succeeds on the
/// first attempt.
pub fn register_all_hotkeys_with_retry<O: HotkeyOs>(
    os: &mut O,
    bindings: &mut Vec<HotkeyBinding>,
    max_retries: u32,
) -> (r: RegistrationReport)
    requires
        max_retries < u32::MAX,
    ensures
        same_keys(old(bindings)@, final(bindings)@),
        1 <= r.attempts <= max_retries + 1,
        r.all_registered ==> all_status(final(bindings)@, RegistrationStatus::Registered)
            && r.failures@.len() == 0,
        !r.all_registered ==> r.attempts == max_retries + 1 && all_status(
            final(bindings)@,
            RegistrationStatus::Unregistered,
        ) && r.failures@.len() > 0,
        old(bindings)@.len() == 0 ==> r.all_registered && r.attempts == 1,
        failures_name_bindings(r.failures@, final(bindings)@),
{
    let mut attempts: u32 = 0;
    loop
        invariant
            attempts <= max_retries,
            max_retries < u32::MAX,
            same_keys(old(bindings)@, bindings@),
            old(bindings)@.len() == 0 ==> attempts == 0,
        decreases max_retries - attempts,
    {
        let failures = register_batch_atomic(os, bindings);
        attempts += 1;
        if failures.len() == 0 {
            return RegistrationReport { attempts, all_registered: true, failures };
        }
        proof {
            // A refusal presupposes a binding, so the batch is not empty.
            let j0 = choose|j: int|
                0 <= j < bindings@.len() && (#[trigger] bindings@[j]).status
                    != RegistrationStatus::Registered;
            assert(bindings@.len() > 0);
        }
        if attempts > max_retries {
            // The budget is exhausted; the failed attempt has already
            // released everything.
            return RegistrationReport { attempts, all_registered: false, failures };
        }
        // Wait, then try the entire batch again.
        mark_retry_pending(bindings);
        os.backoff_delay();
    }
}

/// Register the whole batch with the default retry budget.
pub fn register_all_hotkeys<O: HotkeyOs>(os: &mut O, bindings: &mut Vec<HotkeyBinding>) -> (r:
    RegistrationReport)
    ensures
        same_keys(old(bindings)@, final(bindings)@),
        1 <= r.attempts <= DEFAULT_MAX_RETRIES + 1,
        r.all_registered ==> all_status(final(bindings)@, RegistrationStatus::Registered)
            && r.failures@.len() == 0,
        !r.all_registered ==> r.attempts == DEFAULT_MAX_RETRIES + 1 && all_status(
            final(bindings)@,
            RegistrationStatus::Unregistered,
        ) && r.failures@.len() > 0,
        old(bindings)@.len() == 0 ==> r.all_registered && r.attempts == 1,
        failures_name_bindings(r.failures@, final(bindings)@),
{
    register_all_hotkeys_with_retry(os, bindings, DEFAULT_MAX_RETRIES)
}

/// The binding a hotkey string yields: none when the string is absent or
/// fails to parse, else one unregistered binding under the given id.
pub open spec fn spec_binding_of(id: i32, s: Option<Seq<u8>>) -> Seq<HotkeyBinding> {
    match s {
        Some(bytes) => match spec_parse_hotkey(bytes) {
            Some(mk) => seq![
                HotkeyBinding {
                    id,
                    modifiers: mk.0,
                    key_code: mk.1,
                    status: RegistrationStatus::Unregistered,
                },
            ],
            Option::None => seq![],
        },
        Option::None => seq![],
    }
}

/// The byte view of an optional configured hotkey string.
pub open spec fn spec_opt_hotkey_bytes(s: Option<String>) -> Option<Seq<u8>> {
    match s {
        Some(x) => Some(vstd::utf8::encode_utf8(x@)),
        Option::None => Option::None,
    }
}

/// Build the bindings the configuration calls for: the master-switch toggle
/// binding first, then the mode-switch binding, each present exactly when its
/// hotkey string is configured and parses. An invalid string yields no
/// binding.
pub fn bindings_from_config(config: &Config) -> (r: Vec<HotkeyBinding>)
    ensures
        r@ == spec_binding_of(HOT_KEY_TOGGLE_ID, spec_opt_hotkey_bytes(config.hotkey_toggle))
            + spec_binding_of(
            HOT_KEY_SWITCH_MODE_ID,
            spec_opt_hotkey_bytes(config.hotkey_switch_mode),
        ),
{
    let mut r: Vec<HotkeyBinding> = Vec::new();
    let ghost toggle_part = spec_binding_of(
        HOT_KEY_TOGGLE_ID,
        spec_opt_hotkey_bytes(config.hotkey_toggle),
    );
    let ghost switch_part = spec_binding_of(
        HOT_KEY_SWITCH_MODE_ID,
        spec_opt_hotkey_bytes(config.hotkey_switch_mode),
    );
    match &config.hotkey_toggle {
        Some(s) => {
            match parse_hotkey(s.as_str()) {
                Some((modifiers, key_code)) => {
                    r.push(
                        HotkeyBinding {
                            id: HOT_KEY_TOGGLE_ID,
                            modifiers,
                            key_code,
                            status: RegistrationStatus::Unregistered,
                        },
                    );
                },
                None => {},
            }
        },
        None => {},
    }
    proof {
        assert(r@ =~= toggle_part);
    }
    match &config.hotkey_switch_mode {
        Some(s) => {
            match parse_hotkey(s.as_str()) {
                Some((modifiers, key_code)) => {
                    r.push(
                        HotkeyBinding {
                            id: HOT_KEY_SWITCH_MODE_ID,
                            modifiers,
                            key_code,
                            status: RegistrationStatus::Unregistered,
                        },
                    );
                },
                None => {},
            }
        },
        None => {},
    }
    proof {
        assert(r@ =~= toggle_part + switch_part);
    }
    r
}

} // verus!
