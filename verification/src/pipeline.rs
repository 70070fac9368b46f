//! The batch compilation pipeline: for each category, export its rules
//! from the source database, compile the exported artifact into a binary
//! rule-set, and remove the intermediate artifact on success. One
//! category's failure never stops the remaining categories.
//!
//! The pipeline is a state machine. The surrounding binary asks it for the
//! next step, performs the subprocess invocation or file removal, and
//! reports the outcome; every decision about what happens next is made
//! here. `run_plan` drives the machine over a sequence of outcomes and is
//! proved to produce exactly the trace `pipeline_events` describes.

use vstd::prelude::*;

verus! {

/// One observable act of the pipeline, at the specification level:
/// an export invocation, a compile invocation, or the removal of the
/// intermediate artifact, each for one category.
pub enum Event {
    ExportOf { category: Seq<char> },
    CompileOf { category: Seq<char> },
    RemoveOf { category: Seq<char> },
}

/// One step the pipeline asks the surrounding binary to perform.
pub enum Step {
    RunExport { category: String },
    RunCompile { category: String },
    RemoveArtifact { category: String },
}

impl View for Step {
    type V = Event;

    open spec fn view(&self) -> Event {
        match self {
            Step::RunExport { category } => Event::ExportOf { category: category@ },
            Step::RunCompile { category } => Event::CompileOf { category: category@ },
            Step::RemoveArtifact { category } => Event::RemoveOf { category: category@ },
        }
    }
}

impl DeepView for Step {
    type V = Event;

    open spec fn deep_view(&self) -> Event {
        self.view()
    }
}

/// The events one category contributes to a run: always its export;
/// its compile exactly when the export succeeded; the removal of its
/// intermediate artifact exactly when the compile also succeeded.
pub open spec fn category_events(category: Seq<char>, export_ok: bool, compile_ok: bool) -> Seq<
    Event,
> {
    seq![Event::ExportOf { category }] + (if export_ok {
        seq![Event::CompileOf { category }] + (if compile_ok {
            seq![Event::RemoveOf { category }]
        } else {
            Seq::<Event>::empty()
        })
    } else {
        Seq::<Event>::empty()
    })
}

/// The full trace of a run: each category's events, in input order.
/// `export_ok[i]` and `compile_ok[i]` are the outcomes the external
/// program would report for category `i`'s two steps.
pub open spec fn pipeline_events(
    cats: Seq<Seq<char>>,
    export_ok: Seq<bool>,
    compile_ok: Seq<bool>,
) -> Seq<Event>
    decreases cats.len(),
{
    if cats.len() == 0 {
        Seq::<Event>::empty()
    } else {
        category_events(cats[0], export_ok[0], compile_ok[0]) + pipeline_events(
            cats.skip(1),
            export_ok.skip(1),
            compile_ok.skip(1),
        )
    }
}

/// The categories of the export events of a trace, in order.
pub open spec fn exports_of(evs: Seq<Event>) -> Seq<Seq<char>>
    decreases evs.len(),
{
    if evs.len() == 0 {
        Seq::<Seq<char>>::empty()
    } else {
        (match evs[0] {
            Event::ExportOf { category } => seq![category],
            _ => Seq::<Seq<char>>::empty(),
        }) + exports_of(evs.skip(1))
    }
}

/// The categories of the compile events of a trace, in order.
pub open spec fn compiles_of(evs: Seq<Event>) -> Seq<Seq<char>>
    decreases evs.len(),
{
    if evs.len() == 0 {
        Seq::<Seq<char>>::empty()
    } else {
        (match evs[0] {
            Event::CompileOf { category } => seq![category],
            _ => Seq::<Seq<char>>::empty(),
        }) + compiles_of(evs.skip(1))
    }
}

/// The categories of the artifact-removal events of a trace, in order.
pub open spec fn removes_of(evs: Seq<Event>) -> Seq<Seq<char>>
    decreases evs.len(),
{
    if evs.len() == 0 {
        Seq::<Seq<char>>::empty()
    } else {
        (match evs[0] {
            Event::RemoveOf { category } => seq![category],
            _ => Seq::<Seq<char>>::empty(),
        }) + removes_of(evs.skip(1))
    }
}

/// The categories whose entry in `keep` is true, in order.
pub open spec fn mask(cats: Seq<Seq<char>>, keep: Seq<bool>) -> Seq<Seq<char>>
    decreases cats.len(),
{
    if cats.len() == 0 {
        Seq::<Seq<char>>::empty()
    } else {
        (if keep[0] {
            seq![cats[0]]
        } else {
            Seq::<Seq<char>>::empty()
        }) + mask(cats.skip(1), keep.skip(1))
    }
}

/// Per category: did both its export and its compile succeed?
pub open spec fn compiled_ok(export_ok: Seq<bool>, compile_ok: Seq<bool>) -> Seq<bool> {
    Seq::new(export_ok.len(), |i: int| export_ok[i] && compile_ok[i])
}

/// The categories whose intermediate artifact is still on disk after a
/// run: those that were exported but whose compile step failed.
pub open spec fn leftover_artifacts(
    cats: Seq<Seq<char>>,
    export_ok: Seq<bool>,
    compile_ok: Seq<bool>,
) -> Seq<Seq<char>>
    decreases cats.len(),
{
    if cats.len() == 0 {
        Seq::<Seq<char>>::empty()
    } else {
        (if export_ok[0] && !compile_ok[0] {
            seq![cats[0]]
        } else {
            Seq::<Seq<char>>::empty()
        }) + leftover_artifacts(cats.skip(1), export_ok.skip(1), compile_ok.skip(1))
    }
}

/// How many categories of a run ended with a compiled rule-set.
pub open spec fn successes(export_ok: Seq<bool>, compile_ok: Seq<bool>) -> int
    decreases export_ok.len(),
{
    if export_ok.len() == 0 {
        0
    } else {
        (if export_ok[0] && compile_ok[0] {
            1int
        } else {
            0int
        }) + successes(export_ok.skip(1), compile_ok.skip(1))
    }
}

/// How many categories of a run failed at either step.
pub open spec fn failures(export_ok: Seq<bool>, compile_ok: Seq<bool>) -> int
    decreases export_ok.len(),
{
    if export_ok.len() == 0 {
        0
    } else {
        (if export_ok[0] && compile_ok[0] {
            0int
        } else {
            1int
        }) + failures(export_ok.skip(1), compile_ok.skip(1))
    }
}

proof fn lemma_exports_of_concat(a: Seq<Event>, b: Seq<Event>)
    ensures
        exports_of(a + b) == exports_of(a) + exports_of(b),
    decreases a.len(),
{
    if a.len() == 0 {
        assert(a + b =~= b);
        assert(exports_of(a) + exports_of(b) =~= exports_of(b));
    } else {
        assert((a + b).skip(1) =~= a.skip(1) + b);
        lemma_exports_of_concat(a.skip(1), b);
        assert(exports_of(a + b) =~= exports_of(a) + exports_of(b));
    }
}

proof fn lemma_compiles_of_concat(a: Seq<Event>, b: Seq<Event>)
    ensures
        compiles_of(a + b) == compiles_of(a) + compiles_of(b),
    decreases a.len(),
{
    if a.len() == 0 {
        assert(a + b =~= b);
        assert(compiles_of(a) + compiles_of(b) =~= compiles_of(b));
    } else {
        assert((a + b).skip(1) =~= a.skip(1) + b);
        lemma_compiles_of_concat(a.skip(1), b);
        assert(compiles_of(a + b) =~= compiles_of(a) + compiles_of(b));
    }
}

proof fn lemma_removes_of_concat(a: Seq<Event>, b: Seq<Event>)
    ensures
        removes_of(a + b) == removes_of(a) + removes_of(b),
    decreases a.len(),
{
    if a.len() == 0 {
        assert(a + b =~= b);
        assert(removes_of(a) + removes_of(b) =~= removes_of(b));
    } else {
        assert((a + b).skip(1) =~= a.skip(1) + b);
        lemma_removes_of_concat(a.skip(1), b);
        assert(removes_of(a + b) =~= removes_of(a) + removes_of(b));
    }
}

proof fn lemma_category_event_projections(category: Seq<char>, export_ok: bool, compile_ok: bool)
    ensures
        exports_of(category_events(category, export_ok, compile_ok)) == seq![category],
        compiles_of(category_events(category, export_ok, compile_ok)) == (if export_ok {
            seq![category]
        } else {
            Seq::<Seq<char>>::empty()
        }),
        removes_of(category_events(category, export_ok, compile_ok)) == (if export_ok
            && compile_ok {
            seq![category]
        } else {
            Seq::<Seq<char>>::empty()
        }),
{
    reveal_with_fuel(exports_of, 5);
    reveal_with_fuel(compiles_of, 5);
    reveal_with_fuel(removes_of, 5);
    let ce = category_events(category, export_ok, compile_ok);
    if !export_ok {
        assert(ce =~= seq![Event::ExportOf { category }]);
        assert(ce.skip(1) =~= Seq::<Event>::empty());
        assert(exports_of(ce) =~= seq![category]);
        assert(compiles_of(ce) =~= Seq::<Seq<char>>::empty());
        assert(removes_of(ce) =~= Seq::<Seq<char>>::empty());
    } else if !compile_ok {
        assert(ce =~= seq![
            Event::ExportOf { category },
            Event::CompileOf { category },
        ]);
        assert(ce.skip(1) =~= seq![Event::CompileOf { category }]);
        assert(ce.skip(1).skip(1) =~= Seq::<Event>::empty());
        assert(exports_of(ce) =~= seq![category]);
        assert(compiles_of(ce) =~= seq![category]);
        assert(removes_of(ce) =~= Seq::<Seq<char>>::empty());
    } else {
        assert(ce =~= seq![
            Event::ExportOf { category },
            Event::CompileOf { category },
            Event::RemoveOf { category },
        ]);
        assert(ce.skip(1) =~= seq![
            Event::CompileOf { category },
            Event::RemoveOf { category },
        ]);
        assert(ce.skip(1).skip(1) =~= seq![Event::RemoveOf { category }]);
        assert(ce.skip(1).skip(1).skip(1) =~= Seq::<Event>::empty());
        assert(exports_of(ce) =~= seq![category]);
        assert(compiles_of(ce) =~= seq![category]);
        assert(removes_of(ce) =~= seq![category]);
    }
}

/// Law: a run issues exactly one export invocation per category, in
/// input order — a failed category never stops the categories after it
/// from being exported.
pub proof fn lemma_exports_in_input_order(
    cats: Seq<Seq<char>>,
    export_ok: Seq<bool>,
    compile_ok: Seq<bool>,
)
    requires
        export_ok.len() == cats.len(),
        compile_ok.len() == cats.len(),
    ensures
        exports_of(pipeline_events(cats, export_ok, compile_ok)) == cats,
    decreases cats.len(),
{
    if cats.len() == 0 {
        assert(exports_of(pipeline_events(cats, export_ok, compile_ok)) =~= cats);
    } else {
        lemma_exports_in_input_order(cats.skip(1), export_ok.skip(1), compile_ok.skip(1));
        lemma_exports_of_concat(
            category_events(cats[0], export_ok[0], compile_ok[0]),
            pipeline_events(cats.skip(1), export_ok.skip(1), compile_ok.skip(1)),
        );
        lemma_category_event_projections(cats[0], export_ok[0], compile_ok[0]);
        assert(exports_of(pipeline_events(cats, export_ok, compile_ok)) =~= cats);
    }
}

/// Law: a run issues a compile invocation for a category exactly when
/// that category's export succeeded, in input order — so a failed export
/// never leads to a compile invocation for its category.
pub proof fn lemma_compiles_match_export_outcomes(
    cats: Seq<Seq<char>>,
    export_ok: Seq<bool>,
    compile_ok: Seq<bool>,
)
    requires
        export_ok.len() == cats.len(),
        compile_ok.len() == cats.len(),
    ensures
        compiles_of(pipeline_events(cats, export_ok, compile_ok)) == mask(cats, export_ok),
    decreases cats.len(),
{
    if cats.len() == 0 {
        assert(compiles_of(pipeline_events(cats, export_ok, compile_ok)) =~= mask(
            cats,
            export_ok,
        ));
    } else {
        lemma_compiles_match_export_outcomes(cats.skip(1), export_ok.skip(1), compile_ok.skip(1));
        lemma_compiles_of_concat(
            category_events(cats[0], export_ok[0], compile_ok[0]),
            pipeline_events(cats.skip(1), export_ok.skip(1), compile_ok.skip(1)),
        );
        lemma_category_event_projections(cats[0], export_ok[0], compile_ok[0]);
        assert(compiles_of(pipeline_events(cats, export_ok, compile_ok)) =~= mask(
            cats,
            export_ok,
        ));
    }
}

/// Law: a run removes a category's intermediate artifact exactly when
/// that category's compile step succeeded.
pub proof fn lemma_removes_match_compile_outcomes(
    cats: Seq<Seq<char>>,
    export_ok: Seq<bool>,
    compile_ok: Seq<bool>,
)
    requires
        export_ok.len() == cats.len(),
        compile_ok.len() == cats.len(),
    ensures
        removes_of(pipeline_events(cats, export_ok, compile_ok)) == mask(
            cats,
            compiled_ok(export_ok, compile_ok),
        ),
    decreases cats.len(),
{
    if cats.len() == 0 {
        assert(removes_of(pipeline_events(cats, export_ok, compile_ok)) =~= mask(
            cats,
            compiled_ok(export_ok, compile_ok),
        ));
    } else {
        lemma_removes_match_compile_outcomes(cats.skip(1), export_ok.skip(1), compile_ok.skip(1));
        lemma_removes_of_concat(
            category_events(cats[0], export_ok[0], compile_ok[0]),
            pipeline_events(cats.skip(1), export_ok.skip(1), compile_ok.skip(1)),
        );
        lemma_category_event_projections(cats[0], export_ok[0], compile_ok[0]);
        assert(compiled_ok(export_ok, compile_ok).skip(1) =~= compiled_ok(
            export_ok.skip(1),
            compile_ok.skip(1),
        ));
        assert(removes_of(pipeline_events(cats, export_ok, compile_ok)) =~= mask(
            cats,
            compiled_ok(export_ok, compile_ok),
        ));
    }
}

/// Law: a run in which every export and every compile succeeded removes
/// every intermediate artifact it created and leaves none behind.
pub proof fn lemma_clean_run_leaves_nothing(
    cats: Seq<Seq<char>>,
    export_ok: Seq<bool>,
    compile_ok: Seq<bool>,
)
    requires
        export_ok.len() == cats.len(),
        compile_ok.len() == cats.len(),
        forall|i: int| 0 <= i < cats.len() ==> export_ok[i] && compile_ok[i],
    ensures
        leftover_artifacts(cats, export_ok, compile_ok) == Seq::<Seq<char>>::empty(),
        removes_of(pipeline_events(cats, export_ok, compile_ok)) == cats,
    decreases cats.len(),
{
    lemma_removes_match_compile_outcomes(cats, export_ok, compile_ok);
    lemma_mask_all_true(cats, compiled_ok(export_ok, compile_ok));
    if cats.len() == 0 {
        assert(leftover_artifacts(cats, export_ok, compile_ok) =~= Seq::<Seq<char>>::empty());
    } else {
        lemma_clean_run_leaves_nothing(cats.skip(1), export_ok.skip(1), compile_ok.skip(1));
        assert(leftover_artifacts(cats, export_ok, compile_ok) =~= Seq::<Seq<char>>::empty());
    }
}

proof fn lemma_mask_all_true(cats: Seq<Seq<char>>, keep: Seq<bool>)
    requires
        keep.len() == cats.len(),
        forall|i: int| 0 <= i < cats.len() ==> keep[i],
    ensures
        mask(cats, keep) == cats,
    decreases cats.len(),
{
    if cats.len() == 0 {
        assert(mask(cats, keep) =~= cats);
    } else {
        lemma_mask_all_true(cats.skip(1), keep.skip(1));
        assert(mask(cats, keep) =~= cats);
    }
}

/// Law: re-running the pipeline on the same categories accumulates no
/// intermediate artifacts when both runs succeed throughout — each run
/// cleans up everything it created.
pub proof fn lemma_repeated_clean_runs_accumulate_nothing(
    cats: Seq<Seq<char>>,
    first_export_ok: Seq<bool>,
    first_compile_ok: Seq<bool>,
    second_export_ok: Seq<bool>,
    second_compile_ok: Seq<bool>,
)
    requires
        first_export_ok.len() == cats.len(),
        first_compile_ok.len() == cats.len(),
        second_export_ok.len() == cats.len(),
        second_compile_ok.len() == cats.len(),
        forall|i: int| 0 <= i < cats.len() ==> first_export_ok[i] && first_compile_ok[i],
        forall|i: int| 0 <= i < cats.len() ==> second_export_ok[i] && second_compile_ok[i],
    ensures
        leftover_artifacts(cats, first_export_ok, first_compile_ok) + leftover_artifacts(
            cats,
            second_export_ok,
            second_compile_ok,
        ) == Seq::<Seq<char>>::empty(),
{
    lemma_clean_run_leaves_nothing(cats, first_export_ok, first_compile_ok);
    lemma_clean_run_leaves_nothing(cats, second_export_ok, second_compile_ok);
    assert(leftover_artifacts(cats, first_export_ok, first_compile_ok) + leftover_artifacts(
        cats,
        second_export_ok,
        second_compile_ok,
    ) =~= Seq::<Seq<char>>::empty());
}

/// Law: an empty category sequence produces no events at all.
pub proof fn lemma_empty_category_run(export_ok: Seq<bool>, compile_ok: Seq<bool>)
    ensures
        pipeline_events(Seq::<Seq<char>>::empty(), export_ok, compile_ok) == Seq::<Event>::empty(),
{
}

/// Which of a category's steps the pipeline is waiting on.
#[derive(Clone, Copy)]
pub enum Stage {
    Exporting,
    Compiling,
    Cleaning,
}

/// The compilation pipeline's state: the categories still to process, the
/// position of the current one, the step it is waiting on, and how many
/// categories have already succeeded or failed.
pub struct Pipeline {
    categories: Vec<String>,
    index: usize,
    stage: Stage,
    succeeded: usize,
    failed: usize,
}

impl Pipeline {
    /// The categories of this run.
    pub closed spec fn cats(&self) -> Seq<Seq<char>> {
        self.categories.deep_view()
    }

    /// The position of the category currently being processed; equal to
    /// `cats().len()` once the run is finished.
    pub closed spec fn pos(&self) -> int {
        self.index as int
    }

    /// The step the pipeline is waiting on for the current category.
    pub closed spec fn current_stage(&self) -> Stage {
        self.stage
    }

    /// How many categories have been compiled successfully so far.
    pub closed spec fn ok_count(&self) -> int {
        self.succeeded as int
    }

    /// How many categories have failed at either step so far.
    pub closed spec fn fail_count(&self) -> int {
        self.failed as int
    }

    /// Well-formedness: the position never passes the end, a finished run
    /// waits on nothing, and every finished category is counted exactly
    /// once, as a success or as a failure.
    pub closed spec fn inv(&self) -> bool {
        &&& self.index <= self.categories.len()
        &&& (self.index == self.categories.len() ==> self.stage is Exporting)
        &&& self.succeeded as int + self.failed as int == self.index as int
    }

    /// The event of the step the pipeline will hand out next.
    pub open spec fn expected_event(&self) -> Event {
        match self.current_stage() {
            Stage::Exporting => Event::ExportOf { category: self.cats()[self.pos()] },
            Stage::Compiling => Event::CompileOf { category: self.cats()[self.pos()] },
            Stage::Cleaning => Event::RemoveOf { category: self.cats()[self.pos()] },
        }
    }

    /// Starts a run over the given categories, in their order.
    pub fn new(categories: Vec<String>) -> (p: Pipeline)
        ensures
            p.inv(),
            p.cats() == categories.deep_view(),
            p.pos() == 0,
            p.current_stage() is Exporting,
            p.ok_count() == 0,
            p.fail_count() == 0,
    {
        Pipeline { categories, index: 0, stage: Stage::Exporting, succeeded: 0, failed: 0 }
    }

    /// The next step to perform, or `None` once every category has been
    /// processed.
    pub fn next_step(&self) -> (r: Option<Step>)
        requires
            self.inv(),
        ensures
            (r is None) <==> self.pos() == self.cats().len(),
            self.pos() < self.cats().len() ==> (r matches Some(s) && s@ == self.expected_event()),
    {
        if self.index == self.categories.len() {
            None
        } else {
            let category = self.categories[self.index].clone();
            match self.stage {
                Stage::Exporting => Some(Step::RunExport { category }),
                Stage::Compiling => Some(Step::RunCompile { category }),
                Stage::Cleaning => Some(Step::RemoveArtifact { category }),
            }
        }
    }

    /// Records the outcome of the current category's export invocation.
    /// On success the category moves on to its compile step; on failure it
    /// is counted as failed and the pipeline moves to the next category.
    pub fn report_export(&mut self, success: bool)
        requires
            old(self).inv(),
            old(self).current_stage() is Exporting,
            old(self).pos() < old(self).cats().len(),
        ensures
            final(self).inv(),
            final(self).cats() == old(self).cats(),
            success ==> final(self).pos() == old(self).pos()
                && final(self).current_stage() is Compiling
                && final(self).ok_count() == old(self).ok_count()
                && final(self).fail_count() == old(self).fail_count(),
            !success ==> final(self).pos() == old(self).pos() + 1
                && final(self).current_stage() is Exporting
                && final(self).ok_count() == old(self).ok_count()
                && final(self).fail_count() == old(self).fail_count() + 1,
    {
        if success {
            self.stage = Stage::Compiling;
        } else {
            self.failed = self.failed + 1;
            self.index = self.index + 1;
            self.stage = Stage::Exporting;
        }
    }

    /// Records the outcome of the current category's compile invocation.
    /// On success the intermediate artifact is due for removal; on failure
    /// the artifact is left in place for diagnosis, the category is
    /// counted as failed, and the pipeline moves to the next category.
    pub fn report_compile(&mut self, success: bool)
        requires
            old(self).inv(),
            old(self).current_stage() is Compiling,
            old(self).pos() < old(self).cats().len(),
        ensures
            final(self).inv(),
            final(self).cats() == old(self).cats(),
            success ==> final(self).pos() == old(self).pos()
                && final(self).current_stage() is Cleaning
                && final(self).ok_count() == old(self).ok_count()
                && final(self).fail_count() == old(self).fail_count(),
            !success ==> final(self).pos() == old(self).pos() + 1
                && final(self).current_stage() is Exporting
                && final(self).ok_count() == old(self).ok_count()
                && final(self).fail_count() == old(self).fail_count() + 1,
    {
        if success {
            self.stage = Stage::Cleaning;
        } else {
            self.failed = self.failed + 1;
            self.index = self.index + 1;
            self.stage = Stage::Exporting;
        }
    }

    /// Records that the current category's intermediate artifact has been
    /// removed: the category is complete and counted as a success, and the
    /// pipeline moves to the next category.
    pub fn note_removed(&mut self)
        requires
            old(self).inv(),
            old(self).current_stage() is Cleaning,
            old(self).pos() < old(self).cats().len(),
        ensures
            final(self).inv(),
            final(self).cats() == old(self).cats(),
            final(self).pos() == old(self).pos() + 1,
            final(self).current_stage() is Exporting,
            final(self).ok_count() == old(self).ok_count() + 1,
            final(self).fail_count() == old(self).fail_count(),
    {
        self.succeeded = self.succeeded + 1;
        self.index = self.index + 1;
        self.stage = Stage::Exporting;
    }

    /// The number of categories compiled and the number failed so far.
    pub fn counts(&self) -> (r: (usize, usize))
        ensures
            r.0 as int == self.ok_count(),
            r.1 as int == self.fail_count(),
    {
        (self.succeeded, self.failed)
    }
}

proof fn lemma_events_take_succ(cats: Seq<Seq<char>>, export_ok: Seq<bool>, compile_ok: Seq<bool>, i: int)
    requires
        export_ok.len() == cats.len(),
        compile_ok.len() == cats.len(),
        0 <= i < cats.len(),
    ensures
        pipeline_events(cats.take(i + 1), export_ok.take(i + 1), compile_ok.take(i + 1))
            == pipeline_events(cats.take(i), export_ok.take(i), compile_ok.take(i))
            + category_events(cats[i], export_ok[i], compile_ok[i]),
    decreases i,
{
    if i == 0 {
        reveal_with_fuel(pipeline_events, 2);
        assert(cats.take(0) =~= Seq::<Seq<char>>::empty());
        assert(cats.take(1).skip(1) =~= Seq::<Seq<char>>::empty());
        assert(export_ok.take(1).skip(1) =~= Seq::<bool>::empty());
        assert(compile_ok.take(1).skip(1) =~= Seq::<bool>::empty());
        assert(pipeline_events(cats.take(1), export_ok.take(1), compile_ok.take(1))
            =~= pipeline_events(cats.take(0), export_ok.take(0), compile_ok.take(0))
            + category_events(cats[0], export_ok[0], compile_ok[0]));
    } else {
        lemma_events_take_succ(cats.skip(1), export_ok.skip(1), compile_ok.skip(1), i - 1);
        assert(cats.take(i + 1).skip(1) =~= cats.skip(1).take(i));
        assert(export_ok.take(i + 1).skip(1) =~= export_ok.skip(1).take(i));
        assert(compile_ok.take(i + 1).skip(1) =~= compile_ok.skip(1).take(i));
        assert(cats.take(i).skip(1) =~= cats.skip(1).take(i - 1));
        assert(export_ok.take(i).skip(1) =~= export_ok.skip(1).take(i - 1));
        assert(compile_ok.take(i).skip(1) =~= compile_ok.skip(1).take(i - 1));
        assert(cats.skip(1)[i - 1] == cats[i]);
        assert(pipeline_events(cats.take(i + 1), export_ok.take(i + 1), compile_ok.take(i + 1))
            =~= pipeline_events(cats.take(i), export_ok.take(i), compile_ok.take(i))
            + category_events(cats[i], export_ok[i], compile_ok[i]));
    }
}

proof fn lemma_counts_take_succ(export_ok: Seq<bool>, compile_ok: Seq<bool>, i: int)
    requires
        export_ok.len() == compile_ok.len(),
        0 <= i < export_ok.len(),
    ensures
        successes(export_ok.take(i + 1), compile_ok.take(i + 1)) == successes(
            export_ok.take(i),
            compile_ok.take(i),
        ) + (if export_ok[i] && compile_ok[i] {
            1int
        } else {
            0int
        }),
        failures(export_ok.take(i + 1), compile_ok.take(i + 1)) == failures(
            export_ok.take(i),
            compile_ok.take(i),
        ) + (if export_ok[i] && compile_ok[i] {
            0int
        } else {
            1int
        }),
    decreases i,
{
    if i == 0 {
        assert(export_ok.take(0) =~= Seq::<bool>::empty());
        assert(compile_ok.take(0) =~= Seq::<bool>::empty());
        assert(export_ok.take(1).skip(1) =~= Seq::<bool>::empty());
        assert(compile_ok.take(1).skip(1) =~= Seq::<bool>::empty());
    } else {
        lemma_counts_take_succ(export_ok.skip(1), compile_ok.skip(1), i - 1);
        assert(export_ok.take(i + 1).skip(1) =~= export_ok.skip(1).take(i));
        assert(compile_ok.take(i + 1).skip(1) =~= compile_ok.skip(1).take(i));
        assert(export_ok.take(i).skip(1) =~= export_ok.skip(1).take(i - 1));
        assert(compile_ok.take(i).skip(1) =~= compile_ok.skip(1).take(i - 1));
        assert(export_ok.skip(1)[i - 1] == export_ok[i]);
        assert(compile_ok.skip(1)[i - 1] == compile_ok[i]);
    }
}

/// Drives one full run of the pipeline, feeding it the given outcome for
/// each category's export and compile invocation, and returns the trace
/// of steps it asked for together with the success and failure counts.
/// The trace is exactly the one `pipeline_events` describes, whatever the
/// outcomes are.
pub fn run_plan(categories: Vec<String>, export_ok: &Vec<bool>, compile_ok: &Vec<bool>) -> (r: (
    Vec<Step>,
    usize,
    usize,
))
    requires
        export_ok@.len() == categories@.len(),
        compile_ok@.len() == categories@.len(),
    ensures
        r.0.deep_view() == pipeline_events(categories.deep_view(), export_ok@, compile_ok@),
        r.1 as int == successes(export_ok@, compile_ok@),
        r.2 as int == failures(export_ok@, compile_ok@),
{
    let ghost cs = categories.deep_view();
    let ghost es = export_ok@;
    let ghost ks = compile_ok@;
    let n = export_ok.len();
    let mut p = Pipeline::new(categories);
    let mut trace: Vec<Step> = Vec::new();
    proof {
        assert(cs.take(0) =~= Seq::<Seq<char>>::empty());
        assert(trace.deep_view() =~= pipeline_events(cs.take(0), es.take(0), ks.take(0)));
    }
    let mut i: usize = 0;
    while i < n
        invariant
            p.inv(),
            p.cats() == cs,
            es.len() == cs.len(),
            ks.len() == cs.len(),
            n == cs.len(),
            i <= n,
            p.pos() == i as int,
            p.current_stage() is Exporting,
            es == export_ok@,
            ks == compile_ok@,
            trace.deep_view() == pipeline_events(cs.take(i as int), es.take(i as int), ks.take(i as int)),
            p.ok_count() == successes(es.take(i as int), ks.take(i as int)),
            p.fail_count() == failures(es.take(i as int), ks.take(i as int)),
        decreases n - i,
    {
        let ghost trace_before = trace.deep_view();
        match p.next_step() {
            Some(step) => trace.push(step),
            None => {
                proof {
                    assert(false);
                }
            },
        }
        proof {
            assert(trace.deep_view() =~= trace_before.push(Event::ExportOf { category: cs[i as int] }));
        }
        let e = export_ok[i];
        p.report_export(e);
        if e {
            let ghost trace_mid = trace.deep_view();
            match p.next_step() {
                Some(step) => trace.push(step),
                None => {
                    proof {
                        assert(false);
                    }
                },
            }
            proof {
                assert(trace.deep_view() =~= trace_mid.push(Event::CompileOf { category: cs[i as int] }));
            }
            let k = compile_ok[i];
            p.report_compile(k);
            if k {
                let ghost trace_late = trace.deep_view();
                match p.next_step() {
                    Some(step) => trace.push(step),
                    None => {
                        proof {
                            assert(false);
                        }
                    },
                }
                proof {
                    assert(trace.deep_view() =~= trace_late.push(Event::RemoveOf { category: cs[i as int] }));
                }
                p.note_removed();
            }
        }
        proof {
            lemma_events_take_succ(cs, es, ks, i as int);
            lemma_counts_take_succ(es, ks, i as int);
            assert(trace.deep_view() =~= pipeline_events(
                cs.take(i as int),
                es.take(i as int),
                ks.take(i as int),
            ) + category_events(cs[i as int], es[i as int], ks[i as int]));
        }
        i += 1;
    }
    proof {
        assert(cs.take(n as int) =~= cs);
        assert(es.take(n as int) =~= es);
        assert(ks.take(n as int) =~= ks);
    }
    let (ok, bad) = p.counts();
    (trace, ok, bad)
}

/// The report printed when a category's rules were exported.
pub fn export_success_message(category: &str) -> (r: String)
    ensures
        r@ == "Successfully exported "@ + category@,
{
    let mut r = String::new();
    r.append("Successfully exported ");
    r.append(category);
    proof {
        assert(r@ =~= "Successfully exported "@ + category@);
    }
    r
}

/// The report printed when a category's export invocation failed.
pub fn export_failure_message(category: &str) -> (r: String)
    ensures
        r@ == "Failed to export "@ + category@,
{
    let mut r = String::new();
    r.append("Failed to export ");
    r.append(category);
    proof {
        assert(r@ =~= "Failed to export "@ + category@);
    }
    r
}

/// The report printed when a category's rule-set was compiled.
pub fn compile_success_message(category: &str) -> (r: String)
    ensures
        r@ == "Successfully compiled "@ + category@,
{
    let mut r = String::new();
    r.append("Successfully compiled ");
    r.append(category);
    proof {
        assert(r@ =~= "Successfully compiled "@ + category@);
    }
    r
}

/// The report printed when a category's compile invocation failed.
pub fn compile_failure_message(category: &str) -> (r: String)
    ensures
        r@ == "Failed to compile "@ + category@,
{
    let mut r = String::new();
    r.append("Failed to compile ");
    r.append(category);
    proof {
        assert(r@ =~= "Failed to compile "@ + category@);
    }
    r
}

/// The report printed when the category source yields no categories.
pub fn no_categories_message() -> (r: String)
    ensures
        r@ == "No valid category array found in config.json"@,
{
    String::from_str("No valid category array found in config.json")
}

} // verus!
