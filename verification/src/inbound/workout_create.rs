use crate::domain::types::weight::Weight;
use crate::types::workout::{
    exercise_views, BodyweightRepSet, BodyweightTimeSet, Exercise, ExerciseSet, ExerciseSetView,
    ExerciseView, WeightedSet, Workout, WorkoutView,
};
use vstd::prelude::*;

verus! {

/// A set of a weighted exercise, as a client reports it.
#[derive(Debug, Clone, Copy, PartialEq, Eq, Structural)]
pub struct WeightedSetCreateRequest {
    pub reps: Option<u32>,
    pub weight: Weight,
    pub failure: Option<bool>,
}

/// A set of a bodyweight exercise counted in repetitions, as a client
/// reports it.
#[derive(Debug, Clone, Copy, PartialEq, Eq, Structural)]
pub struct BodyweightRepSetCreateRequest {
    pub reps: u32,
    pub failure: Option<bool>,
}

/// A set of a bodyweight exercise that is held for a time, as a client
/// reports it.
#[derive(Debug, Clone, Copy, PartialEq, Eq, Structural)]
pub struct BodyweightTimeSetCreateRequest {
    pub duration_seconds: u32,
}

/// The sets done of one exercise, as a client reports them.
#[derive(Debug, Clone, PartialEq, Eq)]
pub enum ExerciseSetCreateRequest {
    Weighted(Vec<WeightedSetCreateRequest>),
    BodyweightReps(Vec<BodyweightRepSetCreateRequest>),
    BodyweightTime(Vec<BodyweightTimeSetCreateRequest>),
}

/// One exercise of a workout, as a client reports it.
#[derive(Debug, Clone, PartialEq, Eq)]
pub struct ExerciseDoneCreateRequest {
    pub name: String,
    pub sets: ExerciseSetCreateRequest,
}

/// A workout, as a client reports it.
#[derive(Debug)]
pub struct WorkoutCreateRequest {
    pub date: chrono::NaiveDate,
    pub mood: Option<u8>,
    pub exercises: Vec<ExerciseDoneCreateRequest>,
}

/// The outcome of checking a list item by item: the checked items where
/// every item passed, else the complaint about the first item that did
/// not.
pub open spec fn collect<T>(outcomes: Seq<Result<T, Seq<char>>>) -> Result<Seq<T>, Seq<char>>
    decreases outcomes.len(),
{
    if outcomes.len() == 0 {
        Ok(Seq::empty())
    } else {
        match collect(outcomes.drop_last()) {
            Err(complaint) => Err(complaint),
            Ok(items) => match outcomes.last() {
                Err(complaint) => Err(complaint),
                Ok(item) => Ok(items.push(item)),
            },
        }
    }
}

/// A list passes exactly when each of its items passes, and then the
/// checked items stand in the order of the list.
pub proof fn lemma_collect_passes<T>(outcomes: Seq<Result<T, Seq<char>>>)
    ensures
        collect(outcomes) is Ok <==> forall|i: int|
            0 <= i < outcomes.len() ==> (#[trigger] outcomes[i]) is Ok,
        collect(outcomes) is Ok ==> collect(outcomes)->Ok_0 == Seq::new(
            outcomes.len(),
            |i: int| outcomes[i]->Ok_0,
        ),
    decreases outcomes.len(),
{
    if outcomes.len() > 0 {
        let earlier = outcomes.drop_last();
        lemma_collect_passes(earlier);
        if collect(outcomes) is Ok {
            assert forall|i: int| 0 <= i < outcomes.len() implies (
            #[trigger] outcomes[i]) is Ok by {
                if i < earlier.len() {
                    assert(earlier[i] == outcomes[i]);
                }
            }
            assert(collect(outcomes)->Ok_0 =~= Seq::new(
                outcomes.len(),
                |i: int| outcomes[i]->Ok_0,
            ));
        }
        if forall|i: int| 0 <= i < outcomes.len() ==> (#[trigger] outcomes[i]) is Ok {
            assert forall|i: int| 0 <= i < earlier.len() implies (#[trigger] earlier[i]) is Ok by {
                assert(earlier[i] == outcomes[i]);
            }
            assert(outcomes.last() == outcomes[outcomes.len() - 1]);
        }
    } else {
        assert(collect(outcomes)->Ok_0 =~= Seq::new(
            outcomes.len(),
            |i: int| outcomes[i]->Ok_0,
        ));
    }
}

/// The complaint about a list is that about its first item that does not
/// pass.
pub proof fn lemma_collect_first_complaint<T>(outcomes: Seq<Result<T, Seq<char>>>, first: int)
    requires
        0 <= first < outcomes.len(),
        outcomes[first] is Err,
        forall|i: int| 0 <= i < first ==> (#[trigger] outcomes[i]) is Ok,
    ensures
        collect(outcomes) == Err::<Seq<T>, Seq<char>>(outcomes[first]->Err_0),
    decreases outcomes.len(),
{
    let earlier = outcomes.drop_last();
    if first < outcomes.len() - 1 {
        assert(earlier[first] == outcomes[first]);
        assert forall|i: int| 0 <= i < first implies (#[trigger] earlier[i]) is Ok by {
            assert(earlier[i] == outcomes[i]);
        }
        lemma_collect_first_complaint(earlier, first);
    } else {
        assert forall|i: int| 0 <= i < earlier.len() implies (#[trigger] earlier[i]) is Ok by {
            assert(earlier[i] == outcomes[i]);
        }
        lemma_collect_passes(earlier);
        assert(outcomes.last() == outcomes[first]);
    }
}

/// What checking a reported weighted set gives. A count of repetitions
/// that is given must not be zero, and the weight must be greater than
/// zero; a weight that is no number is not. The repetitions are looked at
/// first. A set that passes has one repetition where none is given, and
/// was not done to failure unless the report says so.
pub open spec fn weighted_set_of(request: WeightedSetCreateRequest) -> Result<
    WeightedSet,
    Seq<char>,
> {
    if request.reps == Some(0u32) {
        Err("Reps must be greater than 0"@)
    } else if !request.weight.is_positive() {
        Err("Weight must be greater than 0"@)
    } else {
        Ok(
            WeightedSet {
                reps: match request.reps {
                    Some(reps) => reps,
                    None => 1,
                },
                weight: request.weight,
                failure: match request.failure {
                    Some(failure) => failure,
                    None => false,
                },
            },
        )
    }
}

/// What checking a reported set counted in repetitions gives. The count
/// must not be zero.
pub open spec fn bodyweight_rep_set_of(request: BodyweightRepSetCreateRequest) -> Result<
    BodyweightRepSet,
    Seq<char>,
> {
    if request.reps == 0 {
        Err("Reps must be greater than 0"@)
    } else {
        Ok(
            BodyweightRepSet {
                reps: request.reps,
                failure: match request.failure {
                    Some(failure) => failure,
                    None => false,
                },
            },
        )
    }
}

/// What checking a reported timed set gives. The duration must not be
/// zero.
pub open spec fn bodyweight_time_set_of(request: BodyweightTimeSetCreateRequest) -> Result<
    BodyweightTimeSet,
    Seq<char>,
> {
    if request.duration_seconds == 0 {
        Err("Duration must be greater than 0"@)
    } else {
        Ok(BodyweightTimeSet { duration_seconds: request.duration_seconds })
    }
}

/// What checking the reported sets of one exercise gives: the checked
/// sets, of the same kind and in the same order, or the complaint about
/// the first set that does not pass.
pub open spec fn exercise_set_of(request: ExerciseSetCreateRequest) -> Result<
    ExerciseSetView,
    Seq<char>,
> {
    match request {
        ExerciseSetCreateRequest::Weighted(sets) => match collect(outcomes_of(sets@)) {
            Ok(checked) => Ok(ExerciseSetView::Weighted(checked)),
            Err(complaint) => Err(complaint),
        },
        ExerciseSetCreateRequest::BodyweightReps(sets) => match collect(outcomes_of(sets@)) {
            Ok(checked) => Ok(ExerciseSetView::BodyweightReps(checked)),
            Err(complaint) => Err(complaint),
        },
        ExerciseSetCreateRequest::BodyweightTime(sets) => match collect(outcomes_of(sets@)) {
            Ok(checked) => Ok(ExerciseSetView::BodyweightTime(checked)),
            Err(complaint) => Err(complaint),
        },
    }
}

/// What checking one reported exercise gives: the exercise under its
/// name with its checked sets, or the complaint about its sets.
pub open spec fn exercise_of(request: ExerciseDoneCreateRequest) -> Result<
    ExerciseView,
    Seq<char>,
> {
    match exercise_set_of(request.sets) {
        Ok(sets) => Ok(ExerciseView { name: request.name@, sets }),
        Err(complaint) => Err(complaint),
    }
}

/// What checking a reported workout gives: the workout with its date,
/// its mood and its checked exercises in order, or the complaint about
/// the first exercise that does not pass.
pub open spec fn workout_of(request: WorkoutCreateRequest) -> Result<WorkoutView, Seq<char>> {
    match collect(
        Seq::new(request.exercises@.len(), |i: int| exercise_of(request.exercises@[i])),
    ) {
        Ok(exercises) => Ok(WorkoutView { date: request.date, mood: request.mood, exercises }),
        Err(complaint) => Err(complaint),
    }
}

/// The outcome `r` of a check is the outcome `expected`:
/// the same checked value, or a complaint with the same text.
pub open spec fn agrees<T>(r: Result<T, String>, expected: Result<T, Seq<char>>) -> bool {
    match (r, expected) {
        (Ok(value), Ok(wanted)) => value == wanted,
        (Err(complaint), Err(wanted)) => complaint@ == wanted,
        _ => false,
    }
}

impl TryFrom<WeightedSetCreateRequest> for WeightedSet {
    type Error = String;

    /// Checks a reported weighted set, as [`weighted_set_of`] says.
    fn try_from(value: WeightedSetCreateRequest) -> (r: Result<WeightedSet, String>)
        ensures
            agrees(r, weighted_set_of(value)),
    {
        value.check()
    }
}

impl vstd::std_specs::convert::TryFromSpecImpl<WeightedSetCreateRequest> for WeightedSet {
    open spec fn obeys_try_from_spec() -> bool {
        false
    }

    open spec fn try_from_spec(value: WeightedSetCreateRequest) -> Result<WeightedSet, String> {
        arbitrary()
    }
}

impl TryFrom<BodyweightRepSetCreateRequest> for BodyweightRepSet {
    type Error = String;

    /// Checks a reported set counted in repetitions, as
    /// [`bodyweight_rep_set_of`] says.
    fn try_from(value: BodyweightRepSetCreateRequest) -> (r: Result<BodyweightRepSet, String>)
        ensures
            agrees(r, bodyweight_rep_set_of(value)),
    {
        value.check()
    }
}

impl vstd::std_specs::convert::TryFromSpecImpl<BodyweightRepSetCreateRequest> for BodyweightRepSet {
    open spec fn obeys_try_from_spec() -> bool {
        false
    }

    open spec fn try_from_spec(value: BodyweightRepSetCreateRequest) -> Result<
        BodyweightRepSet,
        String,
    > {
        arbitrary()
    }
}

impl TryFrom<BodyweightTimeSetCreateRequest> for BodyweightTimeSet {
    type Error = String;

    /// Checks a reported timed set, as [`bodyweight_time_set_of`] says.
    fn try_from(value: BodyweightTimeSetCreateRequest) -> (r: Result<BodyweightTimeSet, String>)
        ensures
            agrees(r, bodyweight_time_set_of(value)),
    {
        value.check()
    }
}

impl vstd::std_specs::convert::TryFromSpecImpl<BodyweightTimeSetCreateRequest> for BodyweightTimeSet {
    open spec fn obeys_try_from_spec() -> bool {
        false
    }

    open spec fn try_from_spec(value: BodyweightTimeSetCreateRequest) -> Result<
        BodyweightTimeSet,
        String,
    > {
        arbitrary()
    }
}

/// A reported set of one of the three kinds, with the check made on it.
pub trait SetRequest: Copy {
    /// The checked set that the report becomes.
    type Checked;

    /// What checking the reported set gives.
    spec fn outcome(self) -> Result<Self::Checked, Seq<char>>;

    /// Checks the reported set.
    fn check(self) -> (r: Result<Self::Checked, String>)
        ensures
            agrees(r, self.outcome()),
    ;
}

impl SetRequest for WeightedSetCreateRequest {
    type Checked = WeightedSet;

    open spec fn outcome(self) -> Result<WeightedSet, Seq<char>> {
        weighted_set_of(self)
    }

    fn check(self) -> (r: Result<WeightedSet, String>) {
        if let Some(reps) = self.reps {
            if reps == 0 {
                return Err("Reps must be greater than 0".to_string());
            }
        }
        if !self.weight.is_greater_than_zero() {
            return Err("Weight must be greater than 0".to_string());
        }
        let reps: u32 = match self.reps {
            Some(reps) => reps,
            None => 1,
        };
        let failure = match self.failure {
            Some(failure) => failure,
            None => false,
        };
        Ok(WeightedSet { reps, weight: self.weight, failure })
    }
}

impl SetRequest for BodyweightRepSetCreateRequest {
    type Checked = BodyweightRepSet;

    open spec fn outcome(self) -> Result<BodyweightRepSet, Seq<char>> {
        bodyweight_rep_set_of(self)
    }

    fn check(self) -> (r: Result<BodyweightRepSet, String>) {
        if self.reps == 0 {
            return Err("Reps must be greater than 0".to_string());
        }
        let failure = match self.failure {
            Some(failure) => failure,
            None => false,
        };
        Ok(BodyweightRepSet { reps: self.reps, failure })
    }
}

impl SetRequest for BodyweightTimeSetCreateRequest {
    type Checked = BodyweightTimeSet;

    open spec fn outcome(self) -> Result<BodyweightTimeSet, Seq<char>> {
        bodyweight_time_set_of(self)
    }

    fn check(self) -> (r: Result<BodyweightTimeSet, String>) {
        if self.duration_seconds == 0 {
            return Err("Duration must be greater than 0".to_string());
        }
        Ok(BodyweightTimeSet { duration_seconds: self.duration_seconds })
    }
}

/// What checking each of the reported sets gives, in order.
pub open spec fn outcomes_of<R: SetRequest>(requests: Seq<R>) -> Seq<
    Result<R::Checked, Seq<char>>,
> {
    Seq::new(requests.len(), |i: int| requests[i].outcome())
}

/// Checks reported sets of one kind one by one, up to the first that does
/// not pass.
fn check_sets<R: SetRequest>(requests: &Vec<R>) -> (r: Result<Vec<R::Checked>, String>)
    ensures
        match r {
            Ok(sets) => collect(outcomes_of(requests@)) == Ok::<Seq<R::Checked>, Seq<char>>(
                sets@,
            ),
            Err(complaint) => collect(outcomes_of(requests@)) == Err::<
                Seq<R::Checked>,
                Seq<char>,
            >(complaint@),
        },
{
    let ghost outcomes = outcomes_of(requests@);
    let mut sets: Vec<R::Checked> = Vec::new();
    let mut i: usize = 0;
    while i < requests.len()
        invariant
            i <= requests.len(),
            sets@.len() == i,
            outcomes == outcomes_of(requests@),
            forall|k: int|
                0 <= k < i ==> #[trigger] outcomes[k] == Ok::<R::Checked, Seq<char>>(sets@[k]),
        decreases requests.len() - i,
    {
        match requests[i].check() {
            Ok(set) => {
                sets.push(set);
            },
            Err(complaint) => {
                proof {
                    lemma_collect_first_complaint(outcomes, i as int);
                }
                return Err(complaint);
            },
        }
        i += 1;
    }
    proof {
        lemma_collect_passes(outcomes);
        assert(collect(outcomes)->Ok_0 =~= sets@);
    }
    Ok(sets)
}

impl TryFrom<ExerciseSetCreateRequest> for ExerciseSet {
    type Error = String;

    /// Checks the reported sets of one exercise, as [`exercise_set_of`]
    /// says.
    fn try_from(value: ExerciseSetCreateRequest) -> (r: Result<ExerciseSet, String>)
        ensures
            match r {
                Ok(sets) => exercise_set_of(value) == Ok::<ExerciseSetView, Seq<char>>(sets@),
                Err(complaint) => exercise_set_of(value) == Err::<ExerciseSetView, Seq<char>>(
                    complaint@,
                ),
            },
    {
        match value {
            ExerciseSetCreateRequest::Weighted(weighted_sets) => {
                match check_sets(&weighted_sets) {
                    Ok(sets) => Ok(ExerciseSet::Weighted(sets)),
                    Err(complaint) => Err(complaint),
                }
            },
            ExerciseSetCreateRequest::BodyweightReps(bodyweight_reps_sets) => {
                match check_sets(&bodyweight_reps_sets) {
                    Ok(sets) => Ok(ExerciseSet::BodyweightReps(sets)),
                    Err(complaint) => Err(complaint),
                }
            },
            ExerciseSetCreateRequest::BodyweightTime(bodyweight_time_sets) => {
                match check_sets(&bodyweight_time_sets) {
                    Ok(sets) => Ok(ExerciseSet::BodyweightTime(sets)),
                    Err(complaint) => Err(complaint),
                }
            },
        }
    }
}

impl vstd::std_specs::convert::TryFromSpecImpl<ExerciseSetCreateRequest> for ExerciseSet {
    open spec fn obeys_try_from_spec() -> bool {
        false
    }

    open spec fn try_from_spec(value: ExerciseSetCreateRequest) -> Result<ExerciseSet, String> {
        arbitrary()
    }
}

impl TryFrom<ExerciseDoneCreateRequest> for Exercise {
    type Error = String;

    /// Checks one reported exercise, as [`exercise_of`] says.
    fn try_from(value: ExerciseDoneCreateRequest) -> (r: Result<Exercise, String>)
        ensures
            match r {
                Ok(exercise) => exercise_of(value) == Ok::<ExerciseView, Seq<char>>(exercise@),
                Err(complaint) => exercise_of(value) == Err::<ExerciseView, Seq<char>>(
                    complaint@,
                ),
            },
    {
        match ExerciseSet::try_from(value.sets) {
            Ok(sets) => Ok(Exercise { name: value.name, sets }),
            Err(complaint) => Err(complaint),
        }
    }
}

impl vstd::std_specs::convert::TryFromSpecImpl<ExerciseDoneCreateRequest> for Exercise {
    open spec fn obeys_try_from_spec() -> bool {
        false
    }

    open spec fn try_from_spec(value: ExerciseDoneCreateRequest) -> Result<Exercise, String> {
        arbitrary()
    }
}

impl TryFrom<WorkoutCreateRequest> for Workout {
    type Error = String;

    /// Checks a reported workout, as [`workout_of`] says: every set of
    /// every exercise, up to the first that does not pass.
    fn try_from(value: WorkoutCreateRequest) -> (r: Result<Workout, String>)
        ensures
            match r {
                Ok(workout) => workout_of(value) == Ok::<WorkoutView, Seq<char>>(workout@),
                Err(complaint) => workout_of(value) == Err::<WorkoutView, Seq<char>>(complaint@),
            },
    {
        let ghost requests = value.exercises@;
        let ghost outcomes = Seq::new(requests.len(), |i: int| exercise_of(requests[i]));
        let WorkoutCreateRequest { date, mood, exercises: reported } = value;
        let mut exercises: Vec<Exercise> = Vec::new();
        for request in it: reported.into_iter()
            invariant
                it.seq() == requests,
                requests == value.exercises@,
                outcomes == Seq::new(requests.len(), |i: int| exercise_of(requests[i])),
                exercises@.len() == it.index(),
                forall|k: int|
                    0 <= k < it.index() ==> #[trigger] outcomes[k] == Ok::<
                        ExerciseView,
                        Seq<char>,
                    >(exercises@[k]@),
        {
            let ghost i = it.index() as int;
            match Exercise::try_from(request) {
                Ok(exercise) => {
                    exercises.push(exercise);
                },
                Err(complaint) => {
                    proof {
                        assert(outcomes[i] is Err);
                        lemma_collect_first_complaint(outcomes, i);
                    }
                    return Err(complaint);
                },
            }
        }
        proof {
            lemma_collect_passes(outcomes);
            assert(collect(outcomes)->Ok_0 =~= exercise_views(exercises@));
        }
        Ok(Workout { date, mood, exercises })
    }
}

impl vstd::std_specs::convert::TryFromSpecImpl<WorkoutCreateRequest> for Workout {
    open spec fn obeys_try_from_spec() -> bool {
        false
    }

    open spec fn try_from_spec(value: WorkoutCreateRequest) -> Result<Workout, String> {
        arbitrary()
    }
}

/// Sets that pass the check are positive, every one.
pub proof fn lemma_checked_sets_are_positive(request: ExerciseSetCreateRequest)
    ensures
        exercise_set_of(request) matches Ok(sets) ==> sets.all_positive(),
{
    match request {
        ExerciseSetCreateRequest::Weighted(sets) => {
            let outcomes = outcomes_of(sets@);
            lemma_collect_passes(outcomes);
            if collect(outcomes) is Ok {
                let checked = collect(outcomes)->Ok_0;
                assert forall|i: int| 0 <= i < checked.len() implies (
                #[trigger] checked[i]).is_positive() by {
                    assert(outcomes[i] is Ok);
                }
            }
        },
        ExerciseSetCreateRequest::BodyweightReps(sets) => {
            let outcomes = outcomes_of(sets@);
            lemma_collect_passes(outcomes);
            if collect(outcomes) is Ok {
                let checked = collect(outcomes)->Ok_0;
                assert forall|i: int| 0 <= i < checked.len() implies (
                #[trigger] checked[i]).is_positive() by {
                    assert(outcomes[i] is Ok);
                }
            }
        },
        ExerciseSetCreateRequest::BodyweightTime(sets) => {
            let outcomes = outcomes_of(sets@);
            lemma_collect_passes(outcomes);
            if collect(outcomes) is Ok {
                let checked = collect(outcomes)->Ok_0;
                assert forall|i: int| 0 <= i < checked.len() implies (
                #[trigger] checked[i]).is_positive() by {
                    assert(outcomes[i] is Ok);
                }
            }
        },
    }
}

/// A reported workout passes the check only with positive sets
/// throughout: one set with no repetition, no duration, or a weight that
/// is not greater than zero, and the whole report is turned down.
pub proof fn lemma_checked_workout_is_positive(request: WorkoutCreateRequest)
    ensures
        workout_of(request) matches Ok(workout) ==> workout.all_positive(),
{
    let requests = request.exercises@;
    let outcomes = Seq::new(requests.len(), |i: int| exercise_of(requests[i]));
    lemma_collect_passes(outcomes);
    if collect(outcomes) is Ok {
        let checked = collect(outcomes)->Ok_0;
        assert forall|i: int| 0 <= i < checked.len() implies (
        #[trigger] checked[i]).sets.all_positive() by {
            assert(outcomes[i] is Ok);
            lemma_checked_sets_are_positive(requests[i].sets);
        }
    }
}

} // verus!
