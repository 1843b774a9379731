use vstd::prelude::*;

verus! {

/// How the nearest surface distance met by one probe of a march compares with the settings:
/// at most the hit threshold, beyond the maximum distance, or in between.
#[derive(Debug, Clone, Copy, PartialEq, Eq, Structural)]
pub enum Probe {
    Within,
    Beyond,
    Between,
}

/// What a march does after a probe.
#[derive(Debug, Clone, Copy, PartialEq, Eq, Structural)]
pub enum MarchStep {
    /// A surface was reached: report the hit.
    Hit,
    /// The ray escaped, or the iteration budget is spent: report no hit.
    Miss,
    /// Advance along the ray by the nearest distance and probe again.
    Advance,
}

/// The decision after probe number `iteration` (counted from zero) of a march allowed
/// `max_iterations` probes.
pub open spec fn march_step_of(iteration: int, max_iterations: int, probe: Probe) -> MarchStep {
    match probe {
        Probe::Within => MarchStep::Hit,
        Probe::Beyond => MarchStep::Miss,
        Probe::Between => if iteration + 1 < max_iterations {
            MarchStep::Advance
        } else {
            MarchStep::Miss
        },
    }
}

/// The probe at which a march that meets `probes` in order, from probe number `iteration` on,
/// reports a hit; `None` where it reports no hit.
pub open spec fn march_hit(probes: Seq<Probe>, iteration: int, max_iterations: int) -> Option<int>
    decreases max_iterations - iteration,
{
    if iteration < 0 || iteration >= max_iterations || iteration >= probes.len() {
        None
    } else {
        match march_step_of(iteration, max_iterations, probes[iteration]) {
            MarchStep::Hit => Some(iteration),
            MarchStep::Miss => None,
            MarchStep::Advance => march_hit(probes, iteration + 1, max_iterations),
        }
    }
}

/// A march reports a hit only at a probe that met a surface within the hit threshold, within
/// the iteration budget; so a march none of whose probes comes within the threshold (one where
/// every object lies beyond the maximum distance, say) reports no hit.
pub proof fn lemma_march_hit_needs_surface(probes: Seq<Probe>, iteration: int, max_iterations: int)
    ensures
        march_hit(probes, iteration, max_iterations) matches Some(k) ==> iteration <= k
            < max_iterations && k < probes.len() && probes[k] == Probe::Within,
        (forall|k: int| 0 <= k < probes.len() ==> probes[k] != Probe::Within) ==> march_hit(
            probes,
            iteration,
            max_iterations,
        ) is None,
    decreases max_iterations - iteration,
{
    if iteration < 0 || iteration >= max_iterations || iteration >= probes.len() {
    } else if march_step_of(iteration, max_iterations, probes[iteration]) == MarchStep::Advance {
        lemma_march_hit_needs_surface(probes, iteration + 1, max_iterations);
    }
}

/// Decisions of the sphere tracer and the path integrator that do not depend on the
/// arithmetic of the scene.
pub struct Renderer {}

impl Renderer {
    /// Decides how a march goes on after probe number `iteration`.
    pub fn march_step(iteration: usize, max_iterations: usize, probe: Probe) -> (s: MarchStep)
        requires
            iteration < max_iterations,
        ensures
            s == march_step_of(iteration as int, max_iterations as int, probe),
    {
        match probe {
            Probe::Within => MarchStep::Hit,
            Probe::Beyond => MarchStep::Miss,
            Probe::Between => if iteration + 1 < max_iterations {
                MarchStep::Advance
            } else {
                MarchStep::Miss
            },
        }
    }

    /// The material at `index` of `table`, or `fallback` where the table has no such entry.
    pub fn resolve_material<'a, M>(table: &'a Vec<M>, index: usize, fallback: &'a M) -> (m: &'a M)
        ensures
            index < table@.len() ==> *m == table@[index as int],
            index >= table@.len() ==> *m == *fallback,
    {
        if index < table.len() {
            &table[index]
        } else {
            fallback
        }
    }
}

} // verus!
