//! The rebuild coordinator: single-flight build execution with
//! pending-retry coalescing, watched-path bookkeeping, and the fixed
//! lifecycle-event order of one build cycle.
//!
//! The coordinator is driven by an embedding that owns the asynchronous
//! plumbing: the embedding performs the build, evaluates the include/exclude
//! predicate and the on-disk check for each reported path, registers the
//! returned paths with the filesystem monitor, and broadcasts the drained
//! event stream. Every decision lives here and is verified.

use vstd::prelude::*;

use crate::emitter::EventEmitter;
use crate::events::{EventV, LifecycleEvent};
use crate::types::BuildOutputDescriptor;
use crate::watch_set::{
    path_set_clear, path_set_contains, path_set_insert, path_set_items, path_set_new,
    path_set_view,
};

verus! {

/// The two advisory coalescing flags of the coordinator.
pub struct Flags {
    pub running: bool,
    pub rerun: bool,
}

/// What `invalidate` leaves in the flags: while a build runs, the request is
/// coalesced into `rerun`; otherwise the flags are unchanged (a pending
/// request is already considered queued, and a started run clears `rerun`
/// which was already false).
pub open spec fn invalidate_flags(f: Flags) -> Flags {
    if f.running {
        Flags { running: f.running, rerun: true }
    } else {
        f
    }
}

/// `invalidate` drives a build cycle exactly when no build is running and
/// none is pending.
pub open spec fn invalidate_starts_run(f: Flags) -> bool {
    !f.running && !f.rerun
}

/// Configuration the coordinator reads once at construction.
pub struct WatchOptions {
    /// Perform a no-write build instead of a full build.
    pub skip_write: bool,
    /// The absolute output directory reported in `BundleEnd` events.
    pub output_dir: String,
}

/// The watch-mode rebuild coordinator.
pub struct Watcher {
    /// The ordered lifecycle-event stream.
    pub emitter: EventEmitter,
    pub options: WatchOptions,
    /// A build cycle is currently in progress, from `run_begin` until
    /// `run_finish` (or until the embedding aborts the cycle).
    pub running: bool,
    /// A rebuild request arrived while a build was running.
    pub rerun: bool,
    /// Paths registered with the monitor, each at most once.
    pub watch_files: dashmap::DashSet<String, std::hash::RandomState>,
    /// `close` has torn the watcher down.
    pub closed: bool,
}

/// The events `run_begin` publishes when a cycle opens.
pub open spec fn begin_events() -> Seq<EventV> {
    seq![EventV::ReStart, EventV::Start, EventV::BundleStart]
}

/// The events `run_finish` publishes when a cycle ends. A failing build
/// surfaces only the first diagnostic; the rest are discarded by design.
pub open spec fn finish_events(
    errors: Seq<Seq<char>>,
    output_dir: Seq<char>,
    duration_ms: Seq<char>,
) -> Seq<EventV> {
    seq![
        (if errors.len() == 0 {
            EventV::BundleEnd { output_dir, duration_ms }
        } else {
            EventV::Error { message: errors[0] }
        }),
        EventV::End,
    ]
}

/// The events of one completed build cycle, in their fixed order.
pub open spec fn cycle_events(
    errors: Seq<Seq<char>>,
    output_dir: Seq<char>,
    duration_ms: Seq<char>,
) -> Seq<EventV> {
    seq![
        EventV::ReStart,
        EventV::Start,
        EventV::BundleStart,
        (if errors.len() == 0 {
            EventV::BundleEnd { output_dir, duration_ms }
        } else {
            EventV::Error { message: errors[0] }
        }),
        EventV::End,
    ]
}

/// Event ordering: one build cycle, opened by `run_begin` and ended by
/// `run_finish`, extends any event stream by exactly the fixed sequence
/// `ReStart, Start, BundleStart, (BundleEnd | Error), End`; that no second
/// cycle's events sit inside the block is `lemma_mutual_exclusion`.
pub proof fn lemma_cycle_event_order(
    stream: Seq<EventV>,
    errors: Seq<Seq<char>>,
    output_dir: Seq<char>,
    duration_ms: Seq<char>,
)
    ensures
        stream + begin_events() + finish_events(errors, output_dir, duration_ms) == stream
            + cycle_events(errors, output_dir, duration_ms),
{
    assert(stream + begin_events() + finish_events(errors, output_dir, duration_ms)
        =~= stream + cycle_events(errors, output_dir, duration_ms));
}

/// The paths of `files` that are admitted (they exist on disk and pass the
/// include/exclude predicate), as a set.
pub open spec fn admitted_set(files: Seq<Seq<char>>, admitted: Seq<bool>) -> Set<Seq<char>> {
    Set::new(
        |p: Seq<char>|
            exists|i: int| 0 <= i < files.len() && #[trigger] admitted[i] && files[i] == p,
    )
}

/// The paths a build cycle newly registers, in order: an admitted path is
/// kept when it is not watched yet and has not occurred earlier in `files`.
pub open spec fn register_plan(
    files: Seq<Seq<char>>,
    admitted: Seq<bool>,
    watched: Set<Seq<char>>,
) -> Seq<Seq<char>>
    decreases files.len(),
{
    if files.len() == 0 {
        Seq::empty()
    } else {
        let take = admitted[0] && !watched.contains(files[0]);
        let rest = register_plan(
            files.skip(1),
            admitted.skip(1),
            if take {
                watched.insert(files[0])
            } else {
                watched
            },
        );
        if take {
            seq![files[0]] + rest
        } else {
            rest
        }
    }
}

/// One atomic step of the coordination protocol, as the flags see it.
///
/// `Invalidate` is one `invalidate` call together with the `run_begin` it
/// may drive: when it starts a cycle, `running` is set and the execution
/// enters the build-mutex-protected section. `FinishRun` is `run_finish` on
/// an active cycle: `running` is cleared and the protected section is left.
/// Any interleaving of concurrent callers is a sequence of these steps,
/// because each step only reads and writes the two flags.
pub enum CoordStep {
    Invalidate,
    FinishRun,
}

/// The protocol state: the two flags, how many executions are inside the
/// protected section, and how many build cycles were ever started.
pub struct CoordModel {
    pub running: bool,
    pub rerun: bool,
    pub active: nat,
    pub builds_started: nat,
}

/// The coordinator before anything happened.
pub open spec fn coord_init() -> CoordModel {
    CoordModel { running: false, rerun: false, active: 0, builds_started: 0 }
}

/// The effect of one step. The `Invalidate` branch is exactly the contract
/// of `invalidate` (`invalidate_flags`, `invalidate_starts_run`), with the
/// start of the driven run folded in.
pub open spec fn coord_next(m: CoordModel, s: CoordStep) -> CoordModel {
    match s {
        CoordStep::Invalidate => {
            let f = Flags { running: m.running, rerun: m.rerun };
            if invalidate_starts_run(f) {
                CoordModel {
                    running: true,
                    rerun: false,
                    active: m.active + 1,
                    builds_started: m.builds_started + 1,
                }
            } else {
                let f2 = invalidate_flags(f);
                CoordModel {
                    running: f2.running,
                    rerun: f2.rerun,
                    active: m.active,
                    builds_started: m.builds_started,
                }
            }
        },
        CoordStep::FinishRun => {
            if m.active > 0 {
                CoordModel {
                    running: false,
                    rerun: m.rerun,
                    active: (m.active - 1) as nat,
                    builds_started: m.builds_started,
                }
            } else {
                m
            }
        },
    }
}

/// The state after a sequence of steps.
pub open spec fn coord_run_steps(m: CoordModel, steps: Seq<CoordStep>) -> CoordModel
    decreases steps.len(),
{
    if steps.len() == 0 {
        m
    } else {
        coord_run_steps(coord_next(m, steps[0]), steps.skip(1))
    }
}

/// The protocol invariant: an execution is inside the protected section
/// exactly while `running` is set.
pub open spec fn coord_inv(m: CoordModel) -> bool {
    m.active == (if m.running {
        1nat
    } else {
        0nat
    })
}

pub proof fn lemma_coord_inv_preserved(m: CoordModel, steps: Seq<CoordStep>)
    requires
        coord_inv(m),
    ensures
        coord_inv(coord_run_steps(m, steps)),
    decreases steps.len(),
{
    if steps.len() > 0 {
        lemma_coord_inv_preserved(coord_next(m, steps[0]), steps.skip(1));
    }
}

/// Mutual exclusion: whatever sequence of `invalidate` calls and run
/// completions happens, at most one execution is inside the
/// build-mutex-protected section of a build cycle at any instant.
pub proof fn lemma_mutual_exclusion(steps: Seq<CoordStep>)
    ensures
        coord_run_steps(coord_init(), steps).active <= 1,
{
    lemma_coord_inv_preserved(coord_init(), steps);
}

/// A burst of invalidations.
pub open spec fn invalidate_burst(k: nat) -> Seq<CoordStep> {
    Seq::new(k, |i: int| CoordStep::Invalidate)
}

/// Coalescing idempotence: issuing `invalidate` any number of times K >= 1
/// while a build is running leaves `rerun` set and starts no further build
/// cycle from that burst; the flags end the same whatever K was.
pub proof fn lemma_coalescing(m: CoordModel, k: nat)
    requires
        m.running,
        k >= 1,
    ensures
        coord_run_steps(m, invalidate_burst(k)).rerun,
        coord_run_steps(m, invalidate_burst(k)).running == m.running,
        coord_run_steps(m, invalidate_burst(k)).active == m.active,
        coord_run_steps(m, invalidate_burst(k)).builds_started == m.builds_started,
    decreases k,
{
    let m1 = coord_next(m, CoordStep::Invalidate);
    assert(invalidate_burst(k)[0] == CoordStep::Invalidate);
    assert(invalidate_burst(k).skip(1) =~= invalidate_burst((k - 1) as nat));
    assert(coord_run_steps(m, invalidate_burst(k)) == coord_run_steps(
        m1,
        invalidate_burst((k - 1) as nat),
    ));
    if k > 1 {
        lemma_coalescing(m1, (k - 1) as nat);
    } else {
        assert(invalidate_burst(0).len() == 0);
        assert(coord_run_steps(m1, invalidate_burst(0)) == m1);
    }
}

/// Path-set convergence: the registration plan of one build cycle holds each
/// path at most once, and it holds exactly the admitted paths that were not
/// watched before; adding it to the watched set is the same as adding every
/// admitted path.
pub proof fn lemma_register_plan_correct(
    files: Seq<Seq<char>>,
    admitted: Seq<bool>,
    watched: Set<Seq<char>>,
)
    requires
        admitted.len() == files.len(),
    ensures
        register_plan(files, admitted, watched).no_duplicates(),
        forall|p: Seq<char>|
            #[trigger] register_plan(files, admitted, watched).contains(p) <==> (admitted_set(
                files,
                admitted,
            ).contains(p) && !watched.contains(p)),
        watched + register_plan(files, admitted, watched).to_set() == watched + admitted_set(
            files,
            admitted,
        ),
    decreases files.len(),
{
    let plan = register_plan(files, admitted, watched);
    if files.len() == 0 {
        assert(forall|p: Seq<char>| !admitted_set(files, admitted).contains(p));
        assert(watched + plan.to_set() =~= watched + admitted_set(files, admitted));
    } else {
        let take = admitted[0] && !watched.contains(files[0]);
        let watched1 = if take {
            watched.insert(files[0])
        } else {
            watched
        };
        let rest = register_plan(files.skip(1), admitted.skip(1), watched1);
        lemma_register_plan_correct(files.skip(1), admitted.skip(1), watched1);
        assert forall|p: Seq<char>|
            admitted_set(files.skip(1), admitted.skip(1)).contains(p) implies admitted_set(
            files,
            admitted,
        ).contains(p) by {
            let i = choose|i: int|
                0 <= i < files.skip(1).len() && #[trigger] admitted.skip(1)[i] && files.skip(1)[i]
                    == p;
            assert(admitted[i + 1] && files[i + 1] == p);
        }
        assert forall|p: Seq<char>|
            admitted_set(files, admitted).contains(p) && !(admitted[0] && p
                == files[0]) implies admitted_set(files.skip(1), admitted.skip(1)).contains(
            p,
        ) by {
            let i = choose|i: int|
                0 <= i < files.len() && #[trigger] admitted[i] && files[i] == p;
            assert(i != 0);
            assert(admitted.skip(1)[i - 1] && files.skip(1)[i - 1] == p);
        }
        if take {
            assert(plan == seq![files[0]] + rest);
            assert(plan[0] == files[0]);
            assert(forall|j: int| 0 <= j < rest.len() ==> plan[j + 1] == rest[j]);
            assert(forall|p: Seq<char>| plan.contains(p) <==> (p == files[0] || rest.contains(p)));
            assert(!rest.contains(files[0]));
            assert(plan.no_duplicates());
            assert(admitted_set(files, admitted).contains(files[0])) by {
                assert(admitted[0] && files[0] == files[0]);
            }
        } else {
            assert(plan == rest);
            assert(forall|p: Seq<char>| plan.contains(p) <==> rest.contains(p));
        }
        assert forall|p: Seq<char>|
            #[trigger] plan.contains(p) <==> (admitted_set(files, admitted).contains(p)
                && !watched.contains(p)) by {
            if take {
                if p != files[0] {
                    assert(rest.contains(p) <==> (admitted_set(
                        files.skip(1),
                        admitted.skip(1),
                    ).contains(p) && !watched1.contains(p)));
                    assert(watched1.contains(p) == watched.contains(p));
                }
            } else {
                if admitted[0] && p == files[0] {
                    assert(watched.contains(p));
                    assert(!plan.contains(p)) by {
                        assert(!(admitted_set(files.skip(1), admitted.skip(1)).contains(p)
                            && !watched1.contains(p)));
                    }
                }
            }
        }
        assert(watched + plan.to_set() =~= watched + admitted_set(files, admitted));
    }
}

impl Watcher {
    pub open spec fn flags(&self) -> Flags {
        Flags { running: self.running, rerun: self.rerun }
    }

    /// The contents of the watched-path set.
    pub open spec fn watched(&self) -> Set<Seq<char>> {
        path_set_view(&self.watch_files)
    }

    /// A fresh coordinator: nothing runs, nothing is pending, nothing is
    /// watched, nothing was emitted.
    pub fn new(options: WatchOptions) -> (r: Self)
        ensures
            r.options == options,
            !r.running,
            !r.rerun,
            !r.closed,
            r.watched() == Set::<Seq<char>>::empty(),
            r.emitter@ == Seq::<EventV>::empty(),
    {
        Watcher {
            emitter: EventEmitter::new(),
            options,
            running: false,
            rerun: false,
            watch_files: path_set_new(),
            closed: false,
        }
    }

    /// Whether the next build cycle should be a no-write build.
    pub fn wants_no_write_build(&self) -> (r: bool)
        ensures
            r == self.options.skip_write,
    {
        self.options.skip_write
    }

    /// Request a rebuild. While a build is in progress the request is
    /// coalesced into the single `rerun` flag; if a request is already
    /// pending nothing is scheduled; otherwise the caller must now drive one
    /// build cycle (`run_begin` through `run_finish`) to completion before
    /// doing anything else, which is what the returned flag says.
    ///
    /// The coalescing is deliberately best-effort: nothing re-examines
    /// `rerun` when a cycle completes, so a request coalesced during a build
    /// starts no cycle of its own, and once `rerun` is set with no build
    /// running, later requests return without scheduling anything.
    pub fn invalidate(&mut self) -> (start_run: bool)
        ensures
            final(self).flags() == invalidate_flags(old(self).flags()),
            start_run == invalidate_starts_run(old(self).flags()),
            final(self).emitter@ == old(self).emitter@,
            final(self).watched() == old(self).watched(),
            final(self).closed == old(self).closed,
            final(self).options == old(self).options,
    {
        if self.running {
            self.rerun = true;
            return false;
        }
        if self.rerun {
            return false;
        }
        self.rerun = false;
        true
    }

    /// Open one build cycle: publish `ReStart`, `Start`, `BundleStart` and
    /// mark the cycle as running. The embedding calls this under the build
    /// mutex, then resets the per-cycle plugin cache and invokes the build
    /// engine — so `running` is true for the whole build, and a concurrent
    /// `invalidate` observing it coalesces instead of starting a cycle of
    /// its own.
    pub fn run_begin(&mut self)
        ensures
            final(self).emitter@ == old(self).emitter@ + begin_events(),
            final(self).running,
            final(self).rerun == old(self).rerun,
            final(self).watched() == old(self).watched(),
            final(self).closed == old(self).closed,
            final(self).options == old(self).options,
    {
        self.emitter.emit(LifecycleEvent::ReStart);
        self.running = true;
        self.emitter.emit(LifecycleEvent::Start);
        self.emitter.emit(LifecycleEvent::BundleStart);
        proof {
            assert(self.emitter@ =~= old(self).emitter@ + begin_events());
        }
    }

    /// Which paths of a finished build the embedding must register with the
    /// monitor: `admitted[i]` says whether `watch_files[i]` exists on disk
    /// and passes the include/exclude predicate (evaluated against the
    /// absolute and the working-directory-relative form). The plan holds the
    /// admitted paths that are not watched yet, each exactly once, in
    /// first-occurrence order. Nothing is recorded here: a path becomes
    /// watched only through `commit_registrations`, after its registration
    /// succeeded.
    pub fn plan_registrations(
        &self,
        output: &BuildOutputDescriptor,
        admitted: &Vec<bool>,
    ) -> (to_register: Vec<String>)
        requires
            admitted@.len() == output.watch_files@.len(),
        ensures
            to_register@.map_values(|p: String| p@) == register_plan(
                output.files_view(),
                admitted@,
                self.watched(),
            ),
            to_register@.map_values(|p: String| p@).no_duplicates(),
    {
        let ghost files = output.files_view();
        let ghost adm = admitted@;
        let ghost watched0 = self.watched();

        let mut to_register: Vec<String> = Vec::new();
        let mut i: usize = 0;
        proof {
            assert(files.skip(0) =~= files);
            assert(adm.skip(0) =~= adm);
            assert(to_register@.map_values(|p: String| p@) =~= Seq::<Seq<char>>::empty());
            assert(Seq::<Seq<char>>::empty() + register_plan(files, adm, watched0)
                =~= register_plan(files, adm, watched0));
            assert(Seq::<Seq<char>>::empty().to_set() =~= Set::<Seq<char>>::empty());
            assert(watched0 + Set::<Seq<char>>::empty() =~= watched0);
        }
        while i < output.watch_files.len()
            invariant
                i <= output.watch_files@.len(),
                adm.len() == output.watch_files@.len(),
                files == output.files_view(),
                adm == admitted@,
                watched0 == self.watched(),
                to_register@.map_values(|p: String| p@) + register_plan(
                    files.skip(i as int),
                    adm.skip(i as int),
                    watched0 + to_register@.map_values(|p: String| p@).to_set(),
                ) == register_plan(files, adm, watched0),
            decreases output.watch_files@.len() - i,
        {
            let ghost taken_pre = to_register@.map_values(|p: String| p@);
            let ghost watched_pre = watched0 + taken_pre.to_set();
            proof {
                assert(files.skip(i as int).len() == files.len() - i);
                assert(files.skip(i as int)[0] == files[i as int]);
                assert(adm.skip(i as int)[0] == adm[i as int]);
                assert(files.skip(i as int).skip(1) =~= files.skip(i as int + 1));
                assert(adm.skip(i as int).skip(1) =~= adm.skip(i as int + 1));
            }
            let file = &output.watch_files[i];
            if admitted[i] && !path_set_contains(&self.watch_files, file)
                && !contains_string(&to_register, file) {
                to_register.push(file.clone());
                proof {
                    broadcast use vstd::prelude::Seq::lemma_push_to_set_commute;

                    let taken = to_register@.map_values(|p: String| p@);
                    assert(taken =~= taken_pre.push(files[i as int]));
                    assert(taken.to_set() =~= taken_pre.to_set().insert(files[i as int]));
                    assert(watched0 + taken.to_set() =~= watched_pre.insert(files[i as int]));
                    assert(!watched_pre.contains(files[i as int]));
                    assert(register_plan(files.skip(i as int), adm.skip(i as int), watched_pre)
                        == seq![files[i as int]] + register_plan(
                            files.skip(i as int + 1),
                            adm.skip(i as int + 1),
                            watched_pre.insert(files[i as int]),
                        ));
                    assert(taken + register_plan(
                        files.skip(i as int + 1),
                        adm.skip(i as int + 1),
                        watched0 + taken.to_set(),
                    ) =~= taken_pre + register_plan(
                        files.skip(i as int),
                        adm.skip(i as int),
                        watched_pre,
                    ));
                }
            } else {
                proof {
                    if adm[i as int] {
                        assert(watched_pre.contains(files[i as int]));
                    }
                }
            }
            i = i + 1;
        }
        proof {
            assert(files.skip(files.len() as int) =~= Seq::<Seq<char>>::empty());
            assert(adm.skip(adm.len() as int) =~= Seq::<bool>::empty());
            assert(to_register@.map_values(|p: String| p@) + Seq::<Seq<char>>::empty()
                =~= to_register@.map_values(|p: String| p@));
            lemma_register_plan_correct(files, adm, watched0);
        }
        to_register
    }

    /// Record which registrations succeeded: the monitor registers the
    /// planned paths in order and aborts at the first failure, so the
    /// successes are exactly a prefix of the plan. Exactly those paths
    /// become watched; a path whose registration failed, or was never
    /// attempted, is not inserted.
    pub fn commit_registrations(&mut self, to_register: &Vec<String>, registered: usize)
        requires
            registered <= to_register@.len(),
        ensures
            final(self).watched() == old(self).watched() + to_register@.map_values(
                |p: String| p@,
            ).take(registered as int).to_set(),
            final(self).emitter@ == old(self).emitter@,
            final(self).flags() == old(self).flags(),
            final(self).closed == old(self).closed,
            final(self).options == old(self).options,
    {
        let ghost paths = to_register@.map_values(|p: String| p@);
        let ghost watched0 = self.watched();
        let mut i: usize = 0;
        proof {
            assert(paths.take(0) =~= Seq::<Seq<char>>::empty());
            assert(Seq::<Seq<char>>::empty().to_set() =~= Set::<Seq<char>>::empty());
            assert(watched0 + Set::<Seq<char>>::empty() =~= watched0);
        }
        while i < registered
            invariant
                i <= registered,
                registered <= to_register@.len(),
                paths == to_register@.map_values(|p: String| p@),
                self.watched() == watched0 + paths.take(i as int).to_set(),
                self.emitter@ == old(self).emitter@,
                self.flags() == old(self).flags(),
                self.closed == old(self).closed,
                self.options == old(self).options,
            decreases registered - i,
        {
            path_set_insert(&mut self.watch_files, to_register[i].clone());
            proof {
                broadcast use vstd::prelude::Seq::lemma_push_to_set_commute;

                assert(paths.take(i + 1) =~= paths.take(i as int).push(paths[i as int]));
                assert(paths.take(i + 1).to_set() =~= paths.take(i as int).to_set().insert(
                    paths[i as int],
                ));
                assert(self.watched() =~= watched0 + paths.take(i + 1).to_set());
            }
            i = i + 1;
        }
    }

    /// End one build cycle: publish `BundleEnd` (carrying the output
    /// directory and the duration) when the build produced no diagnostics,
    /// else `Error` carrying only the first diagnostic — the rest are
    /// discarded by design; then clear `running` and publish `End`. A cycle
    /// the embedding aborts on a monitor failure never gets here: its
    /// closing events are never published and `running` stays set, as the
    /// error is propagated to the cycle's caller.
    pub fn run_finish(&mut self, output: &BuildOutputDescriptor, duration_ms: String)
        ensures
            final(self).emitter@ == old(self).emitter@ + finish_events(
                output.errors_view(),
                old(self).options.output_dir@,
                duration_ms@,
            ),
            !final(self).running,
            final(self).rerun == old(self).rerun,
            final(self).watched() == old(self).watched(),
            final(self).closed == old(self).closed,
            final(self).options == old(self).options,
    {
        if output.errors.len() == 0 {
            self.emitter.emit(
                LifecycleEvent::BundleEnd {
                    output_dir: self.options.output_dir.clone(),
                    duration_ms,
                },
            );
        } else {
            self.emitter.emit(LifecycleEvent::Error { message: output.errors[0].clone() });
        }
        self.running = false;
        self.emitter.emit(LifecycleEvent::End);
        proof {
            assert(self.emitter@ =~= old(self).emitter@ + finish_events(
                output.errors_view(),
                old(self).options.output_dir@,
                duration_ms@,
            ));
        }
    }

    /// The watched paths, each exactly once, in no promised order. Teardown
    /// reads them to unregister each from the monitor.
    pub fn watched_paths(&self) -> (paths: Vec<String>)
        ensures
            paths@.map_values(|p: String| p@).to_set() == self.watched(),
            paths@.map_values(|p: String| p@).no_duplicates(),
    {
        path_set_items(&self.watch_files)
    }

    /// Tear the watcher down. The embedding posts the close message into the
    /// event bridge, unregisters every path of `watched_paths` from the
    /// monitor, and only then calls here — so an unregistration failure
    /// leaves the watcher untouched and the caller may retry. Afterwards it
    /// runs the plugin driver's close hook. Exactly one `Close` event is
    /// emitted.
    pub fn close(&mut self)
        requires
            !old(self).closed,
        ensures
            final(self).closed,
            final(self).watched() == Set::<Seq<char>>::empty(),
            final(self).emitter@ == old(self).emitter@.push(EventV::Close),
            final(self).flags() == old(self).flags(),
            final(self).options == old(self).options,
    {
        path_set_clear(&mut self.watch_files);
        self.closed = true;
        self.emitter.emit(LifecycleEvent::Close);
    }
}

/// Whether `v` holds a string with this text.
fn contains_string(v: &Vec<String>, s: &String) -> (r: bool)
    ensures
        r == v@.map_values(|p: String| p@).to_set().contains(s@),
{
    let ghost views = v@.map_values(|p: String| p@);
    let mut i: usize = 0;
    while i < v.len()
        invariant
            i <= v@.len(),
            views == v@.map_values(|p: String| p@),
            forall|j: int| 0 <= j < i ==> #[trigger] views[j] != s@,
        decreases v@.len() - i,
    {
        if v[i].eq(s) {
            proof {
                assert(views[i as int] == s@);
                assert(views.to_set().contains(s@));
            }
            return true;
        }
        i = i + 1;
    }
    proof {
        assert(!views.to_set().contains(s@)) by {
            if views.to_set().contains(s@) {
                let j = choose|j: int| 0 <= j < views.len() && views[j] == s@;
                assert(views[j] != s@);
            }
        }
    }
    false
}

} // verus!
