//! A whole resolution on a model of the machine, and what holds of it.
//!
//! `Machine` stands for everything that the resolver's requests can reach.
//! `Machine::resolve` carries the requests out on it, one after the other,
//! and hands each outcome to the transition that the resolver makes on it.

use crate::identity::{
    cache_step, cached_machine_id, first_source, is_lower_hex, is_uuid_v4_text, os_machine_id,
    os_step, read_request, steps_left, store_step, OsSource, Platform, ReadingView, RequestView,
    StepView,
};
use crate::ioreg::lemma_platform_uuid_not_empty;
use crate::text::{is_blank, lemma_trim_empty_iff_blank, lemma_trim_fixed, trim};
use vstd::prelude::*;

verus! {

/// A machine as the resolver sees it.
pub struct Machine {
    pub platform: Platform,
    /// What reading the registry value gives.
    pub machine_guid: ReadingView,
    /// What reading `/etc/machine-id` gives.
    pub etc_machine_id: ReadingView,
    /// What reading `/var/lib/dbus/machine-id` gives.
    pub dbus_machine_id: ReadingView,
    /// What running `ioreg` gives.
    pub platform_device: ReadingView,
    /// What reading the identifier file gives.
    pub cache: ReadingView,
    /// Why the identifier file cannot be written, if it cannot.
    pub store_failure: Option<Seq<char>>,
}

impl Machine {
    /// What reading `source` gives.
    pub open spec fn reading(self, source: OsSource) -> ReadingView {
        match source {
            OsSource::MachineGuid => self.machine_guid,
            OsSource::EtcMachineId => self.etc_machine_id,
            OsSource::DbusMachineId => self.dbus_machine_id,
            OsSource::PlatformDevice => self.platform_device,
        }
    }

    /// The machine once `id` has been written to the identifier file.
    pub open spec fn with_cache(self, id: Seq<char>) -> Machine {
        Machine { cache: ReadingView::Text(id), ..self }
    }

    /// Carries out `request` and makes the resolver's transition on the
    /// outcome, where `fresh` is the identifier that the resolver would
    /// generate. A write that succeeds changes the identifier file.
    pub open spec fn answer(self, request: RequestView, fresh: Seq<char>) -> (StepView, Machine) {
        match request {
            RequestView::ReadOs(source) => (os_step(source, self.reading(source)), self),
            RequestView::ReadCache => (cache_step(self.cache, fresh), self),
            RequestView::Store(id) => match self.store_failure {
                None => (store_step(id, Ok(())), self.with_cache(id)),
                Some(message) => (store_step(id, Err(message)), self),
            },
        }
    }

    /// Carries a resolution on from `step` to its end.
    pub open spec fn run(self, step: StepView, fresh: Seq<char>) -> (
        Result<Seq<char>, Seq<char>>,
        Machine,
    )
        decreases steps_left(step),
    {
        match step {
            StepView::Done(result) => (result, self),
            StepView::Ask(request) => {
                let (next, machine) = self.answer(request, fresh);
                machine.run(next, fresh)
            },
        }
    }

    /// A whole resolution: its result, and the machine that it leaves.
    pub open spec fn resolve(self, fresh: Seq<char>) -> (Result<Seq<char>, Seq<char>>, Machine) {
        self.run(StepView::Ask(read_request(first_source(self.platform))), fresh)
    }

    /// The identifier that the operating system's sources give, the first
    /// of them that gives one.
    pub open spec fn os_id(self) -> Option<Seq<char>> {
        match self.platform {
            Platform::Windows => os_machine_id(OsSource::MachineGuid, self.machine_guid),
            Platform::Linux => match os_machine_id(OsSource::EtcMachineId, self.etc_machine_id) {
                Some(id) => Some(id),
                None => os_machine_id(OsSource::DbusMachineId, self.dbus_machine_id),
            },
            Platform::MacOs => os_machine_id(OsSource::PlatformDevice, self.platform_device),
            Platform::Other => None,
        }
    }

    /// Whether a resolution has to generate an identifier: neither the
    /// operating system nor the identifier file gives one.
    pub open spec fn needs_fresh_id(self) -> bool {
        self.os_id() is None && cached_machine_id(self.cache) is None
    }

    /// The results of one resolution after the other, each on the machine
    /// that the one before it left; `fresh[i]` is the identifier that
    /// resolution `i` would generate.
    pub open spec fn resolve_each(self, fresh: Seq<Seq<char>>) -> Seq<Result<Seq<char>, Seq<char>>>
        decreases fresh.len(),
    {
        if fresh.len() == 0 {
            seq![]
        } else {
            let (result, machine) = self.resolve(fresh[0]);
            seq![result] + machine.resolve_each(fresh.drop_first())
        }
    }
}

/// A version 4 UUID in text form is not empty and is its own trimmed form.
pub proof fn lemma_uuid_text_is_trimmed(id: Seq<char>)
    requires
        is_uuid_v4_text(id),
    ensures
        id.len() > 0,
        trim(id) == id,
{
    assert(is_lower_hex(id[0]));
    assert(is_lower_hex(id[35]));
    lemma_trim_fixed(id);
}

/// The three tiers, the first that succeeds deciding: a resolution returns
/// the operating system's identifier; else the identifier of the
/// identifier file; else it stores the fresh identifier and returns it, or
/// returns the reason why it could not be stored. Only the last tier
/// changes the machine, and only the last tier can fail.
pub proof fn lemma_resolve_tiers(machine: Machine, fresh: Seq<char>)
    ensures
        machine.resolve(fresh) == (if let Some(id) = machine.os_id() {
            (Ok::<Seq<char>, Seq<char>>(id), machine)
        } else if let Some(id) = cached_machine_id(machine.cache) {
            (Ok(id), machine)
        } else if let Some(message) = machine.store_failure {
            (Err(message), machine)
        } else {
            (Ok(fresh), machine.with_cache(fresh))
        }),
{
    reveal_with_fuel(Machine::run, 5);
}

/// An identifier that a resolution returns is never empty, if the one that
/// it would generate is not.
pub proof fn lemma_resolved_id_is_not_empty(machine: Machine, fresh: Seq<char>)
    requires
        fresh.len() > 0,
    ensures
        machine.resolve(fresh).0 matches Ok(id) ==> id.len() > 0,
{
    lemma_resolve_tiers(machine, fresh);
    if let ReadingView::Output { success, stdout } = machine.platform_device {
        lemma_platform_uuid_not_empty(vstd::utf8::decode_utf8(stdout));
    }
    if let ReadingView::Text(text) = machine.platform_device {
        lemma_platform_uuid_not_empty(text);
    }
}

/// Once a resolution has generated an identifier and stored it, every
/// later resolution on that machine returns that identifier and leaves the
/// machine as it is, whatever it would generate itself.
pub proof fn lemma_stored_id_is_stable(machine: Machine, fresh: Seq<char>, later: Seq<char>)
    requires
        is_uuid_v4_text(fresh),
        machine.needs_fresh_id(),
        machine.store_failure is None,
    ensures
        machine.resolve(fresh) == (Ok::<Seq<char>, Seq<char>>(fresh), machine.with_cache(fresh)),
        machine.with_cache(fresh).resolve(later) == (
            Ok::<Seq<char>, Seq<char>>(fresh),
            machine.with_cache(fresh),
        ),
{
    let after = machine.with_cache(fresh);
    lemma_resolve_tiers(machine, fresh);
    lemma_resolve_tiers(after, later);
    lemma_uuid_text_is_trimmed(fresh);
    assert(after.os_id() == machine.os_id());
}

/// After such a resolution, any number of further resolutions return the
/// stored identifier.
pub proof fn lemma_stored_id_is_stable_forever(
    machine: Machine,
    fresh: Seq<char>,
    later: Seq<Seq<char>>,
)
    requires
        is_uuid_v4_text(fresh),
        machine.needs_fresh_id(),
        machine.store_failure is None,
    ensures
        machine.with_cache(fresh).resolve_each(later).len() == later.len(),
        forall|i: int|
            0 <= i < later.len() ==> #[trigger] machine.with_cache(fresh).resolve_each(later)[i]
                == Ok::<Seq<char>, Seq<char>>(fresh),
    decreases later.len(),
{
    let after = machine.with_cache(fresh);
    if later.len() > 0 {
        lemma_stored_id_is_stable(machine, fresh, later[0]);
        lemma_stored_id_is_stable_forever(machine, fresh, later.drop_first());
        let rest = after.resolve_each(later.drop_first());
        assert forall|i: int| 0 <= i < later.len() implies #[trigger] after.resolve_each(later)[i]
            == Ok::<Seq<char>, Seq<char>>(fresh) by {
            if i > 0 {
                assert(after.resolve_each(later)[i] == rest[i - 1]);
            }
        }
    }
}

/// Where the operating system gives no identifier and the identifier file
/// holds nothing but blank characters, a resolution replaces the file's
/// contents by the fresh identifier and returns it.
pub proof fn lemma_blank_cache_is_replaced(machine: Machine, blank: Seq<char>, fresh: Seq<char>)
    requires
        machine.os_id() is None,
        machine.cache == ReadingView::Text(blank),
        is_blank(blank),
        machine.store_failure is None,
    ensures
        machine.resolve(fresh) == (Ok::<Seq<char>, Seq<char>>(fresh), machine.with_cache(fresh)),
{
    lemma_trim_empty_iff_blank(blank);
    lemma_resolve_tiers(machine, fresh);
}

} // verus!
