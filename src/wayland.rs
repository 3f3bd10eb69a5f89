use vstd::prelude::*;

use crate::color::ColorProfile;
use crate::sun::HIGH_TEMP;

verus! {

/// An event named an output that the registry does not hold, or announced one twice.
#[derive(Clone, Copy, Debug, PartialEq, Eq, Structural)]
pub enum RegistryError {
    UnknownOutput,
    DuplicateOutput,
}

/// A gamma ramp to send to one output: a fresh buffer of `ramp_size` samples per
/// channel for `profile`.
#[derive(Clone, Copy, Debug, PartialEq, Eq, Structural)]
pub struct RampPush {
    pub reg_name: u32,
    pub ramp_size: u32,
    pub profile: ColorProfile,
}

impl RampPush {
    /// Size in bytes of the buffer: three channels of 16-bit samples.
    pub fn byte_len(&self) -> (r: u64)
        ensures
            r == 6 * self.ramp_size,
    {
        self.ramp_size as u64 * 6
    }
}

/// Where an output stands in its life with the gamma-control protocol.
#[derive(Clone, Copy, Debug, PartialEq, Eq, Structural)]
pub enum OutputPhase {
    /// The compositor has not reported a ramp size yet (or reported 0).
    AwaitingRampSize,
    /// Ramps can be sent.
    Active,
}

/// One display output: its registry name, the name the compositor gave it, the ramp
/// size it supports (0 until reported) and the profile last sent to it.
#[derive(Debug)]
pub struct Output {
    pub reg_name: u32,
    pub name: Option<String>,
    pub ramp_size: u32,
    pub applied: Option<ColorProfile>,
}

impl Output {
    pub open spec fn spec_phase(&self) -> OutputPhase {
        if self.ramp_size == 0 {
            OutputPhase::AwaitingRampSize
        } else {
            OutputPhase::Active
        }
    }

    pub fn phase(&self) -> (r: OutputPhase)
        ensures
            r == self.spec_phase(),
    {
        if self.ramp_size == 0 {
            OutputPhase::AwaitingRampSize
        } else {
            OutputPhase::Active
        }
    }
}

/// The output still has to be sent `profile`.
pub open spec fn needs_push(o: Output, profile: ColorProfile) -> bool {
    o.ramp_size > 0 && o.applied != Some(profile)
}

pub open spec fn push_for(o: Output, profile: ColorProfile) -> RampPush {
    RampPush { reg_name: o.reg_name, ramp_size: o.ramp_size, profile }
}

/// The output once `profile` has been sent to it, if it needed it.
pub open spec fn applied_to(o: Output, profile: ColorProfile) -> Output {
    if needs_push(o, profile) {
        Output { applied: Some(profile), ..o }
    } else {
        o
    }
}

/// The ramps that bring every output of `s` to `profile`, in the order of `s`.
pub open spec fn pending_pushes(s: Seq<Output>, profile: ColorProfile) -> Seq<RampPush>
    decreases s.len(),
{
    if s.len() == 0 {
        Seq::empty()
    } else {
        let rest = pending_pushes(s.drop_last(), profile);
        if needs_push(s.last(), profile) {
            rest.push(push_for(s.last(), profile))
        } else {
            rest
        }
    }
}

/// The output after the compositor reported `size` for it, with `profile` current.
pub open spec fn with_ramp_size(o: Output, size: u32, profile: ColorProfile) -> Output {
    Output {
        ramp_size: size,
        applied: if size == 0 {
            None
        } else {
            Some(profile)
        },
        ..o
    }
}

pub open spec fn has_output(s: Seq<Output>, reg_name: u32) -> bool {
    exists|k: int| 0 <= k < s.len() && s[k].reg_name == reg_name
}

pub open spec fn names_unique(s: Seq<Output>) -> bool {
    forall|i: int, j: int|
        0 <= i < s.len() && 0 <= j < s.len() && i != j ==> s[i].reg_name != s[j].reg_name
}

/// Over the outputs of `s` that have been sent a profile: how many there are, the sum
/// of their temperatures, the sum of their brightnesses, and whether all are inverted.
pub open spec fn profile_totals(s: Seq<Output>) -> (int, int, int, bool)
    decreases s.len(),
{
    if s.len() == 0 {
        (0, 0, 0, true)
    } else {
        let rest = profile_totals(s.drop_last());
        match s.last().applied {
            Some(p) => (
                rest.0 + 1,
                rest.1 + p.temperature,
                rest.2 + p.brightness,
                rest.3 && p.inverted,
            ),
            None => rest,
        }
    }
}

/// The profile the outputs show together: the average temperature and brightness
/// (rounded down) and the conjunction of the inverted flags, over the outputs that
/// have been sent a profile; none when no output has.
pub open spec fn average_profile(s: Seq<Output>) -> Option<ColorProfile> {
    let t = profile_totals(s);
    if t.0 == 0 {
        None
    } else {
        Some(
            ColorProfile {
                temperature: (t.1 / t.0) as u16,
                brightness: (t.2 / t.0) as u16,
                inverted: t.3,
            },
        )
    }
}

proof fn lemma_totals_bounded(s: Seq<Output>)
    ensures
        0 <= profile_totals(s).0 <= s.len(),
        0 <= profile_totals(s).1 <= 65535 * profile_totals(s).0,
        0 <= profile_totals(s).2 <= 65535 * profile_totals(s).0,
    decreases s.len(),
{
    if s.len() > 0 {
        lemma_totals_bounded(s.drop_last());
    }
}

/// The live outputs and the colour profile they are meant to show.
pub struct WaylandState {
    pub outputs: Vec<Output>,
    pub profile: ColorProfile,
}

impl WaylandState {
    /// Registry names are unique, and an output awaiting its ramp size has been sent
    /// nothing.
    pub open spec fn well_formed(&self) -> bool {
        &&& names_unique(self.outputs@)
        &&& forall|k: int|
            0 <= k < self.outputs@.len() && self.outputs@[k].ramp_size == 0
                ==> self.outputs@[k].applied is None
    }

    /// No outputs, and the day's temperature as the profile.
    pub fn new() -> (r: WaylandState)
        ensures
            r.well_formed(),
            r.outputs@.len() == 0,
            r.profile == (ColorProfile {
                temperature: HIGH_TEMP,
                brightness: crate::color::FULL_BRIGHTNESS,
                inverted: false,
            }),
    {
        WaylandState { outputs: Vec::new(), profile: ColorProfile::from_temperature(HIGH_TEMP) }
    }

    /// Index of the output with `reg_name`, if the registry holds it.
    pub fn position(&self, reg_name: u32) -> (r: Option<usize>)
        ensures
            match r {
                Some(i) => i < self.outputs@.len() && self.outputs@[i as int].reg_name == reg_name,
                None => !has_output(self.outputs@, reg_name),
            },
    {
        let mut i: usize = 0;
        while i < self.outputs.len()
            invariant
                i <= self.outputs@.len(),
                forall|k: int| 0 <= k < i ==> self.outputs@[k].reg_name != reg_name,
            decreases self.outputs@.len() - i,
        {
            if self.outputs[i].reg_name == reg_name {
                return Some(i);
            }
            i = i + 1;
        }
        None
    }

    /// Makes `temperature` the profile's temperature; true when it changed.
    #[must_use]
    pub fn set_temperature(&mut self, temperature: u16) -> (changed: bool)
        ensures
            changed == (temperature != old(self).profile.temperature),
            final(self).profile == (ColorProfile { temperature, ..old(self).profile }),
            final(self).outputs@ == old(self).outputs@,
    {
        let changed = temperature != self.profile.temperature;
        self.profile.temperature = temperature;
        changed
    }

    /// Makes `profile` the current profile; true when it changed.
    #[must_use]
    pub fn set_profile(&mut self, profile: ColorProfile) -> (changed: bool)
        ensures
            changed == (profile != old(self).profile),
            final(self).profile == profile,
            final(self).outputs@ == old(self).outputs@,
    {
        let changed = profile != self.profile;
        self.profile = profile;
        changed
    }

    /// A new output was announced: it is held, awaiting its ramp size.
    pub fn add_output(&mut self, reg_name: u32) -> (r: Result<(), RegistryError>)
        requires
            old(self).well_formed(),
        ensures
            final(self).well_formed(),
            final(self).profile == old(self).profile,
            match r {
                Ok(()) => {
                    &&& !has_output(old(self).outputs@, reg_name)
                    &&& final(self).outputs@ == old(self).outputs@.push(
                        Output { reg_name, name: None, ramp_size: 0, applied: None },
                    )
                },
                Err(e) => {
                    &&& e == RegistryError::DuplicateOutput
                    &&& has_output(old(self).outputs@, reg_name)
                    &&& final(self).outputs@ == old(self).outputs@
                },
            },
    {
        if self.position(reg_name).is_some() {
            return Err(RegistryError::DuplicateOutput);
        }
        self.outputs.push(Output { reg_name, name: None, ramp_size: 0, applied: None });
        Ok(())
    }

    /// A global was removed: the output with that name, if any, leaves the registry.
    /// True when one did (its protocol objects are then to be released).
    pub fn remove_output(&mut self, reg_name: u32) -> (removed: bool)
        requires
            old(self).well_formed(),
        ensures
            final(self).well_formed(),
            final(self).profile == old(self).profile,
            removed == has_output(old(self).outputs@, reg_name),
            !has_output(final(self).outputs@, reg_name),
            removed ==> exists|i: int|
                0 <= i < old(self).outputs@.len() && old(self).outputs@[i].reg_name == reg_name
                    && final(self).outputs@ == old(self).outputs@.remove(i),
            !removed ==> final(self).outputs@ == old(self).outputs@,
    {
        match self.position(reg_name) {
            Some(i) => {
                let ghost before = self.outputs@;
                let _gone = self.outputs.remove(i);
                assert(forall|k: int|
                    0 <= k < self.outputs@.len() ==> #[trigger] self.outputs@[k] == before[if k < i {
                        k
                    } else {
                        k + 1
                    }]);
                true
            },
            None => false,
        }
    }

    /// The compositor reported that gamma control failed for the output: it leaves
    /// the registry (its protocol objects are then to be released).
    pub fn gamma_failed(&mut self, reg_name: u32) -> (r: Result<(), RegistryError>)
        requires
            old(self).well_formed(),
        ensures
            final(self).well_formed(),
            final(self).profile == old(self).profile,
            !has_output(final(self).outputs@, reg_name),
            match r {
                Ok(()) => exists|i: int|
                    0 <= i < old(self).outputs@.len() && old(self).outputs@[i].reg_name
                        == reg_name && final(self).outputs@ == old(self).outputs@.remove(i),
                Err(e) => {
                    &&& e == RegistryError::UnknownOutput
                    &&& !has_output(old(self).outputs@, reg_name)
                    &&& final(self).outputs@ == old(self).outputs@
                },
            },
    {
        if self.remove_output(reg_name) {
            Ok(())
        } else {
            Err(RegistryError::UnknownOutput)
        }
    }

    /// The compositor named the output.
    pub fn set_output_name(&mut self, reg_name: u32, name: String) -> (r: Result<(), RegistryError>)
        requires
            old(self).well_formed(),
        ensures
            final(self).well_formed(),
            final(self).profile == old(self).profile,
            match r {
                Ok(()) => exists|i: int|
                    0 <= i < old(self).outputs@.len() && old(self).outputs@[i].reg_name
                        == reg_name && final(self).outputs@ == old(self).outputs@.update(
                        i,
                        Output { name: Some(name), ..old(self).outputs@[i] },
                    ),
                Err(e) => {
                    &&& e == RegistryError::UnknownOutput
                    &&& !has_output(old(self).outputs@, reg_name)
                    &&& final(self).outputs@ == old(self).outputs@
                },
            },
    {
        match self.position(reg_name) {
            Some(i) => {
                self.outputs[i].name = Some(name);
                Ok(())
            },
            None => Err(RegistryError::UnknownOutput),
        }
    }

    /// The compositor reported the ramp size of the output's gamma control. A size of
    /// 0 leaves it awaiting one, with nothing sent; any other makes it active and asks
    /// for one ramp of the current profile at that size.
    pub fn gamma_size(&mut self, reg_name: u32, size: u32) -> (r: Result<
        Option<RampPush>,
        RegistryError,
    >)
        requires
            old(self).well_formed(),
        ensures
            final(self).well_formed(),
            final(self).profile == old(self).profile,
            match r {
                Ok(push) => {
                    &&& push == (if size == 0 {
                        None
                    } else {
                        Some(RampPush { reg_name, ramp_size: size, profile: old(self).profile })
                    })
                    &&& exists|i: int|
                        0 <= i < old(self).outputs@.len() && old(self).outputs@[i].reg_name
                            == reg_name && final(self).outputs@ == old(self).outputs@.update(
                            i,
                            with_ramp_size(old(self).outputs@[i], size, old(self).profile),
                        )
                },
                Err(e) => {
                    &&& e == RegistryError::UnknownOutput
                    &&& !has_output(old(self).outputs@, reg_name)
                    &&& final(self).outputs@ == old(self).outputs@
                },
            },
    {
        match self.position(reg_name) {
            Some(i) => {
                let ghost before = self.outputs@;
                self.outputs[i].ramp_size = size;
                if size == 0 {
                    self.outputs[i].applied = None;
                    assert(self.outputs@ =~= before.update(
                        i as int,
                        with_ramp_size(before[i as int], size, self.profile),
                    ));
                    Ok(None)
                } else {
                    self.outputs[i].applied = Some(self.profile);
                    assert(self.outputs@ =~= before.update(
                        i as int,
                        with_ramp_size(before[i as int], size, self.profile),
                    ));
                    Ok(Some(RampPush { reg_name, ramp_size: size, profile: self.profile }))
                }
            },
            None => Err(RegistryError::UnknownOutput),
        }
    }

    /// Sending a ramp to the output failed: it is taken to show nothing, so that the
    /// next application of a profile sends one again.
    pub fn push_failed(&mut self, reg_name: u32) -> (r: Result<(), RegistryError>)
        requires
            old(self).well_formed(),
        ensures
            final(self).well_formed(),
            final(self).profile == old(self).profile,
            match r {
                Ok(()) => exists|i: int|
                    0 <= i < old(self).outputs@.len() && old(self).outputs@[i].reg_name
                        == reg_name && final(self).outputs@ == old(self).outputs@.update(
                        i,
                        Output { applied: None, ..old(self).outputs@[i] },
                    ),
                Err(e) => {
                    &&& e == RegistryError::UnknownOutput
                    &&& !has_output(old(self).outputs@, reg_name)
                    &&& final(self).outputs@ == old(self).outputs@
                },
            },
    {
        match self.position(reg_name) {
            Some(i) => {
                self.outputs[i].applied = None;
                Ok(())
            },
            None => Err(RegistryError::UnknownOutput),
        }
    }

    /// The profile the outputs show together (see `average_profile`), to seed an
    /// output that joins after the others have diverged.
    pub fn current_profile(&self) -> (r: Option<ColorProfile>)
        ensures
            r == average_profile(self.outputs@),
    {
        let ghost s = self.outputs@;
        let mut count: u128 = 0;
        let mut temperature: u128 = 0;
        let mut brightness: u128 = 0;
        let mut inverted = true;
        let mut i: usize = 0;
        while i < self.outputs.len()
            invariant
                i <= s.len(),
                s == self.outputs@,
                (count as int, temperature as int, brightness as int, inverted) == profile_totals(
                    s.take(i as int),
                ),
            decreases s.len() - i,
        {
            proof {
                assert(s.take(i + 1).drop_last() =~= s.take(i as int));
                lemma_totals_bounded(s.take(i as int));
            }
            if let Some(p) = self.outputs[i].applied {
                count = count + 1;
                temperature = temperature + p.temperature as u128;
                brightness = brightness + p.brightness as u128;
                inverted = inverted && p.inverted;
            }
            i = i + 1;
        }
        proof {
            assert(s.take(s.len() as int) =~= s);
            lemma_totals_bounded(s);
        }
        if count == 0 {
            None
        } else {
            proof {
                assert(temperature / count <= 65535) by (nonlinear_arith)
                    requires
                        temperature <= 65535 * count,
                        count > 0,
                ;
                assert(brightness / count <= 65535) by (nonlinear_arith)
                    requires
                        brightness <= 65535 * count,
                        count > 0,
                ;
            }
            Some(
                ColorProfile {
                    temperature: (temperature / count) as u16,
                    brightness: (brightness / count) as u16,
                    inverted,
                },
            )
        }
    }

    /// Sends the current profile to every active output that does not show it yet,
    /// each on its own: the ramps to send, in the order of the outputs.
    pub fn apply_profile_to_all(&mut self) -> (pushes: Vec<RampPush>)
        requires
            old(self).well_formed(),
        ensures
            final(self).well_formed(),
            final(self).profile == old(self).profile,
            pushes@ == pending_pushes(old(self).outputs@, old(self).profile),
            final(self).outputs@ == old(self).outputs@.map_values(
                |o: Output| applied_to(o, old(self).profile),
            ),
    {
        let ghost start = self.outputs@;
        let profile = self.profile;
        let mut pushes: Vec<RampPush> = Vec::new();
        let mut i: usize = 0;
        while i < self.outputs.len()
            invariant
                i <= self.outputs@.len(),
                self.outputs@.len() == start.len(),
                self.profile == profile,
                names_unique(start),
                forall|k: int|
                    0 <= k < start.len() && start[k].ramp_size == 0 ==> start[k].applied is None,
                forall|k: int| 0 <= k < i ==> self.outputs@[k] == applied_to(start[k], profile),
                forall|k: int| i <= k < start.len() ==> self.outputs@[k] == start[k],
                pushes@ == pending_pushes(start.take(i as int), profile),
            decreases start.len() - i,
        {
            assert(start.take(i + 1).drop_last() =~= start.take(i as int));
            if self.outputs[i].ramp_size > 0 && self.outputs[i].applied != Some(profile) {
                pushes.push(
                    RampPush {
                        reg_name: self.outputs[i].reg_name,
                        ramp_size: self.outputs[i].ramp_size,
                        profile,
                    },
                );
                self.outputs[i].applied = Some(profile);
            }
            i = i + 1;
        }
        assert(start.take(start.len() as int) =~= start);
        assert(self.outputs@ =~= start.map_values(|o: Output| applied_to(o, profile)));
        pushes
    }
}

/// Once every output has been brought to a profile, bringing them to the same profile
/// again sends nothing.
pub proof fn lemma_apply_idempotent(s: Seq<Output>, profile: ColorProfile)
    ensures
        pending_pushes(s.map_values(|o: Output| applied_to(o, profile)), profile) == Seq::<
            RampPush,
        >::empty(),
    decreases s.len(),
{
    let t = s.map_values(|o: Output| applied_to(o, profile));
    if s.len() > 0 {
        assert(t.drop_last() =~= s.drop_last().map_values(|o: Output| applied_to(o, profile)));
        lemma_apply_idempotent(s.drop_last(), profile);
    }
}

} // verus!
