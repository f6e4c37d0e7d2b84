//! Deleting applications, one after the other.
//!
//! With a list of ids the policy is to fail fast: the ids are taken in
//! order, each must be known to the store when its turn comes, and the first
//! that is not ends the command with `UnknownApplication`, after those
//! before it were deleted.

use vstd::prelude::*;
use crate::commands::install::{Event, Outcome};
use crate::docker_compose::{compose_down, down_command};
use crate::error::ComposerError;
use crate::storage::models::{
    records_view, ApplicationState, ApplicationView, PersistedApplication, StoreContents,
};
use crate::storage::read_from::{found, get_all_from_storage, ids_of, if_application_exists};
use crate::text::{same_text, strings_view};
use crate::walk::{get_files_with_name, picked, Pick, WalkEntry};

verus! {

/// The arguments of a delete.
#[derive(Debug)]
pub struct Delete {
    pub ids: Vec<String>,
    pub all: bool,
}

/// Where a delete stands.
#[derive(Clone, Copy, Debug, PartialEq, Eq, Structural)]
pub enum DeletePhase {
    /// Nothing was asked for yet.
    Start,
    /// The staged tree of the target at this place is being walked.
    Walking(usize),
    /// Of the target at this place, the compose file at this place is being
    /// brought down.
    Down(usize, usize),
    /// After that compose file failed to come down, the record is being set
    /// to `ERROR`.
    Marking(usize, usize),
    /// The record and the staged directory of the target are being removed.
    Removing(usize),
    /// Nothing is left to do.
    Finished,
}

/// What a delete asks for next.
#[derive(Debug)]
pub enum DeleteAction {
    /// Walk the staged tree of this application.
    WalkStaged(String),
    /// Run this command line.
    Run(Vec<String>),
    /// Set the state of this application's record.
    SetState { id: String, state: ApplicationState },
    /// Take this application's record out of the store and remove its
    /// staged directory, if there is one.
    DeleteRecord(String),
    /// Stop.
    Finish(Outcome),
}

/// A delete under way.
#[derive(Debug)]
pub struct Deletion {
    pub phase: DeletePhase,
    /// The ids to delete, in order.
    pub targets: Vec<String>,
    /// The id that ends the command with a failure once the targets are
    /// deleted, if there is one.
    pub refused: Option<String>,
    /// The compose files of the target at hand.
    pub compose_files: Vec<String>,
}

/// Whether the id at `place` is known when its turn comes: the store holds
/// a record for it, and it was not deleted earlier in the list.
pub open spec fn known(records: Option<Seq<ApplicationView>>, ids: Seq<Seq<char>>, place: int) -> bool {
    &&& records matches Some(list)
    &&& found(list, ids[place]) is Some
    &&& forall|j: int| 0 <= j < place ==> ids[j] != ids[place]
}

/// Whether `id` stands among `ids`.
fn listed(ids: &Vec<String>, id: &str) -> (found: bool)
    ensures
        found == exists|j: int| 0 <= j < ids@.len() && (#[trigger] ids@[j])@ == id@,
{
    let mut j: usize = 0;
    while j < ids.len()
        invariant
            j <= ids.len(),
            forall|k: int| 0 <= k < j ==> (#[trigger] ids@[k])@ != id@,
        decreases ids.len() - j,
    {
        if same_text(ids[j].as_str(), id) {
            return true;
        }
        j += 1;
    }
    false
}

impl Delete {
    /// Begins a delete against the store as it was found.
    ///
    /// With `all`, every record of the store is a target, in the store's
    /// order; a store that cannot be read fails with `StoreUnreadable`.
    /// Otherwise the targets are the given ids up to the first that is not
    /// known when its turn comes; that id is kept as the one that ends the
    /// command.
    pub fn exec(&self, store: StoreContents) -> (begun: Result<Deletion, ComposerError>)
        ensures
            self.all ==> match store.records() {
                Some(records) => {
                    &&& begun matches Ok(deletion)
                    &&& deletion.phase == DeletePhase::Start
                    &&& strings_view(deletion.targets@) == ids_of(records)
                    &&& deletion.refused is None
                    &&& deletion.compose_files@.len() == 0
                },
                None => begun matches Err(ComposerError::StoreUnreadable),
            },
            !self.all ==> ({
                &&& begun matches Ok(deletion)
                &&& deletion.phase == DeletePhase::Start
                &&& deletion.compose_files@.len() == 0
                &&& deletion.targets@.len() <= self.ids@.len()
                &&& forall|k: int|
                    0 <= k < deletion.targets@.len() ==> (#[trigger] deletion.targets@[k])@
                        == self.ids@[k]@ && known(store.records(), strings_view(self.ids@), k)
                &&& match deletion.refused {
                    Some(id) => {
                        &&& deletion.targets@.len() < self.ids@.len()
                        &&& id@ == self.ids@[deletion.targets@.len() as int]@
                        &&& !known(
                            store.records(),
                            strings_view(self.ids@),
                            deletion.targets@.len() as int,
                        )
                    },
                    None => deletion.targets@.len() == self.ids@.len(),
                }
            }),
    {
        if self.all {
            let records = match get_all_from_storage(store) {
                Ok(records) => records,
                Err(error) => {
                    return Err(error);
                },
            };
            let mut targets: Vec<String> = Vec::new();
            let mut i: usize = 0;
            while i < records.len()
                invariant
                    i <= records.len(),
                    targets@.len() == i,
                    forall|k: int| 0 <= k < i ==> (#[trigger] targets@[k])@ == records@[k].id@,
                decreases records.len() - i,
            {
                targets.push(records[i].id.clone());
                i += 1;
            }
            assert(strings_view(targets@) =~= ids_of(records_view(records@)));
            return Ok(
                Deletion {
                    phase: DeletePhase::Start,
                    targets,
                    refused: None,
                    compose_files: Vec::new(),
                },
            );
        }
        let ghost ids = strings_view(self.ids@);
        let mut targets: Vec<String> = Vec::new();
        let mut i: usize = 0;
        while i < self.ids.len()
            invariant
                i <= self.ids.len(),
                ids == strings_view(self.ids@),
                !self.all,
                targets@.len() == i,
                forall|k: int|
                    0 <= k < i ==> (#[trigger] targets@[k])@ == self.ids@[k]@ && known(
                        store.records(),
                        ids,
                        k,
                    ),
            decreases self.ids.len() - i,
        {
            let id = &self.ids[i];
            let stored = if_application_exists(&store, id.as_str());
            let earlier = listed(&targets, id.as_str());
            if !stored || earlier {
                proof {
                    if earlier {
                        let j = choose|j: int|
                            0 <= j < targets@.len() && (#[trigger] targets@[j])@ == id@;
                        assert(ids[j] == ids[i as int]);
                    }
                }
                assert(ids[i as int] == id@);
                return Ok(
                    Deletion {
                        phase: DeletePhase::Start,
                        targets,
                        refused: Some(id.clone()),
                        compose_files: Vec::new(),
                    },
                );
            }
            proof {
                assert forall|j: int| 0 <= j < i implies ids[j] != ids[i as int] by {
                    assert(targets@[j]@ == self.ids@[j]@);
                }
            }
            targets.push(id.clone());
            i += 1;
        }
        Ok(Deletion { phase: DeletePhase::Start, targets, refused: None, compose_files: Vec::new() })
    }
}

/// What the machine was given is as before.
pub open spec fn same_targets(before: Deletion, after: Deletion) -> bool {
    after.targets == before.targets && after.refused == before.refused
}

/// The target at `place` is taken up: its staged tree is walked; after the
/// last target the machine stops, with `UnknownApplication` where an id was
/// refused.
pub open spec fn takes_up(before: Deletion, place: int, after: Deletion, action: DeleteAction) -> bool {
    &&& same_targets(before, after)
    &&& after.compose_files == before.compose_files
    &&& if place >= before.targets@.len() {
        &&& after.phase == DeletePhase::Finished
        &&& match before.refused {
            Some(id) => {
                &&& action matches DeleteAction::Finish(
                    Outcome::Failed(ComposerError::UnknownApplication { id: told }),
                )
                &&& told@ == id@
            },
            None => action matches DeleteAction::Finish(Outcome::Done),
        }
    } else {
        &&& after.phase == DeletePhase::Walking(place as usize)
        &&& action matches DeleteAction::WalkStaged(id)
        &&& id@ == before.targets@[place]@
    }
}

/// Of the target at `place`, the compose file at `file` is brought down;
/// after the last one the record and the staged directory are removed.
pub open spec fn brings_down(
    before: Deletion,
    place: usize,
    file: int,
    after: Deletion,
    action: DeleteAction,
) -> bool {
    &&& same_targets(before, after)
    &&& after.compose_files == before.compose_files
    &&& place < before.targets@.len()
    &&& if file >= before.compose_files@.len() {
        &&& after.phase == DeletePhase::Removing(place)
        &&& action matches DeleteAction::DeleteRecord(id)
        &&& id@ == before.targets@[place as int]@
    } else {
        &&& after.phase == DeletePhase::Down(place, file as usize)
        &&& action matches DeleteAction::Run(argv)
        &&& strings_view(argv@) == down_command(before.compose_files@[file]@)
    }
}

/// The machine has stopped with a failure.
pub open spec fn delete_failed(before: Deletion, after: Deletion, action: DeleteAction) -> bool {
    &&& same_targets(before, after)
    &&& after.phase == DeletePhase::Finished
    &&& action == DeleteAction::Finish(Outcome::Failed(ComposerError::UnexpectedAnswer))
}

/// What one step of a delete comes to.
pub open spec fn delete_step(
    before: Deletion,
    event: Event,
    after: Deletion,
    action: DeleteAction,
) -> bool {
    match (before.phase, event) {
        (DeletePhase::Finished, _) => delete_failed(before, after, action),
        (_, Event::Failed(error)) => {
            &&& same_targets(before, after)
            &&& after.phase == DeletePhase::Finished
            &&& action == DeleteAction::Finish(Outcome::Failed(error))
        },
        (DeletePhase::Start, Event::Begin) => takes_up(before, 0, after, action),
        (DeletePhase::Walking(place), Event::Walked(entries)) => {
            if place >= before.targets@.len() {
                delete_failed(before, after, action)
            } else {
                &&& strings_view(after.compose_files@) == picked(
                    entries@,
                    Pick::Name("docker-compose.jinja2"@),
                    entries@.len(),
                )
                &&& brings_down(after, place, 0, after, action)
                &&& same_targets(before, after)
            }
        },
        (DeletePhase::Down(place, file), Event::Exit(code)) => {
            if place >= before.targets@.len() || file >= before.compose_files@.len() {
                delete_failed(before, after, action)
            } else if code == 0 {
                brings_down(before, place, file + 1, after, action)
            } else {
                &&& same_targets(before, after)
                &&& after.compose_files == before.compose_files
                &&& after.phase == DeletePhase::Marking(place, file)
                &&& action matches DeleteAction::SetState { id, state }
                &&& id@ == before.targets@[place as int]@
                &&& state == ApplicationState::ERROR
            }
        },
        (DeletePhase::Marking(place, file), Event::Done) => {
            if place >= before.targets@.len() || file >= before.compose_files@.len() {
                delete_failed(before, after, action)
            } else {
                brings_down(before, place, file + 1, after, action)
            }
        },
        (DeletePhase::Removing(place), Event::Done) => {
            if place >= before.targets@.len() {
                delete_failed(before, after, action)
            } else {
                takes_up(before, place + 1, after, action)
            }
        },
        _ => delete_failed(before, after, action),
    }
}

impl Deletion {
    /// Stops the machine with `error`.
    fn fail(&mut self, error: ComposerError) -> (action: DeleteAction)
        ensures
            same_targets(*old(self), *final(self)),
            final(self).compose_files == old(self).compose_files,
            final(self).phase == DeletePhase::Finished,
            action == DeleteAction::Finish(Outcome::Failed(error)),
    {
        self.phase = DeletePhase::Finished;
        DeleteAction::Finish(Outcome::Failed(error))
    }

    /// Stops the machine: it was told what it did not wait for.
    fn unexpected(&mut self) -> (action: DeleteAction)
        ensures
            delete_failed(*old(self), *final(self), action),
    {
        self.fail(ComposerError::UnexpectedAnswer)
    }

    /// Takes up the target at `place`.
    fn take_up(&mut self, place: usize) -> (action: DeleteAction)
        ensures
            takes_up(*old(self), place as int, *final(self), action),
    {
        if place >= self.targets.len() {
            self.phase = DeletePhase::Finished;
            match &self.refused {
                Some(id) => DeleteAction::Finish(
                    Outcome::Failed(ComposerError::UnknownApplication { id: id.clone() }),
                ),
                None => DeleteAction::Finish(Outcome::Done),
            }
        } else {
            self.phase = DeletePhase::Walking(place);
            DeleteAction::WalkStaged(self.targets[place].clone())
        }
    }

    /// Goes on with the compose file at `file` of the target at `place`.
    fn bring_down_from(&mut self, place: usize, file: usize) -> (action: DeleteAction)
        requires
            place < old(self).targets@.len(),
        ensures
            brings_down(*old(self), place, file as int, *final(self), action),
    {
        if file >= self.compose_files.len() {
            self.phase = DeletePhase::Removing(place);
            DeleteAction::DeleteRecord(self.targets[place].clone())
        } else {
            self.phase = DeletePhase::Down(place, file);
            DeleteAction::Run(compose_down(self.compose_files[file].as_str()))
        }
    }

    /// Takes the answer to the last action and says what is to be done next.
    ///
    /// The first call is told `Event::Begin`. A compose file that fails to
    /// come down has the record set to `ERROR`, and the delete goes on with
    /// the next file all the same. A failure of the work outside stops the
    /// machine at once.
    pub fn step(&mut self, event: Event) -> (action: DeleteAction)
        ensures
            delete_step(*old(self), event, *final(self), action),
    {
        let phase = self.phase;
        if let DeletePhase::Finished = phase {
            return self.unexpected();
        }
        match (phase, event) {
            (_, Event::Failed(error)) => self.fail(error),
            (DeletePhase::Start, Event::Begin) => self.take_up(0),
            (DeletePhase::Walking(place), Event::Walked(entries)) => {
                if place >= self.targets.len() {
                    return self.unexpected();
                }
                self.compose_files = get_files_with_name(&entries, "docker-compose.jinja2");
                self.bring_down_from(place, 0)
            },
            (DeletePhase::Down(place, file), Event::Exit(code)) => {
                if place >= self.targets.len() || file >= self.compose_files.len() {
                    return self.unexpected();
                }
                if code == 0 {
                    self.bring_down_from(place, file + 1)
                } else {
                    self.phase = DeletePhase::Marking(place, file);
                    DeleteAction::SetState {
                        id: self.targets[place].clone(),
                        state: ApplicationState::ERROR,
                    }
                }
            },
            (DeletePhase::Marking(place, file), Event::Done) => {
                if place >= self.targets.len() || file >= self.compose_files.len() {
                    return self.unexpected();
                }
                self.bring_down_from(place, file + 1)
            },
            (DeletePhase::Removing(place), Event::Done) => {
                if place >= self.targets.len() {
                    return self.unexpected();
                }
                self.take_up(place + 1)
            },
            _ => self.unexpected(),
        }
    }
}

/// A compose file that fails to come down does not end the delete: the
/// record is set to `ERROR`, and then the next compose file is brought down
/// or, after the last one, the record and the staged directory are removed.
pub proof fn lemma_failed_down_goes_on(
    before: Deletion,
    place: usize,
    file: usize,
    code: i32,
    marked: Deletion,
    first: DeleteAction,
    after: Deletion,
    second: DeleteAction,
)
    requires
        before.phase == DeletePhase::Down(place, file),
        place < before.targets@.len(),
        file < before.compose_files@.len(),
        code != 0,
        delete_step(before, Event::Exit(code), marked, first),
        delete_step(marked, Event::Done, after, second),
    ensures
        first matches DeleteAction::SetState { state, .. } ==> state == ApplicationState::ERROR,
        first is SetState,
        second is Run || second is DeleteRecord,
        after.phase != DeletePhase::Finished,
{
}

/// Every target is deleted in its turn: once the compose files of a target
/// were gone through, its record and staged directory are removed, and the
/// next target is taken up.
pub proof fn lemma_targets_in_turn(
    before: Deletion,
    place: usize,
    after: Deletion,
    action: DeleteAction,
)
    requires
        before.phase == DeletePhase::Removing(place),
        place < before.targets@.len(),
        delete_step(before, Event::Done, after, action),
    ensures
        place + 1 < before.targets@.len() ==> ({
            &&& action matches DeleteAction::WalkStaged(id)
            &&& id@ == before.targets@[place + 1]@
        }),
        place + 1 == before.targets@.len() ==> after.phase == DeletePhase::Finished && (
        before.refused is None ==> action matches DeleteAction::Finish(Outcome::Done)),
{
}


/// One step of a run: how the machine stood, what it was told, how it was
/// left and what it asked for.
pub struct DeleteStep {
    pub before: Deletion,
    pub event: Event,
    pub after: Deletion,
    pub action: DeleteAction,
}

/// Whether `steps` are a run of a delete from its beginning: the first step
/// is told to begin, every step is one that the machine takes, and each
/// step starts where the one before it ended.
pub open spec fn is_run(steps: Seq<DeleteStep>) -> bool {
    &&& steps.len() > 0
    &&& steps[0].before.phase == DeletePhase::Start
    &&& steps[0].event is Begin
    &&& forall|i: int|
        0 <= i < steps.len() ==> delete_step(
            (#[trigger] steps[i]).before,
            steps[i].event,
            steps[i].after,
            steps[i].action,
        )
    &&& forall|i: int| 0 < i < steps.len() ==> (#[trigger] steps[i]).before == steps[i - 1].after
}

/// Whether a step asks for the record and the staged directory of `id` to
/// be removed.
pub open spec fn asks_removal(step: DeleteStep, id: Seq<char>) -> bool {
    match step.action {
        DeleteAction::DeleteRecord(asked) => asked@ == id,
        _ => false,
    }
}

/// Whether one of the first `count` steps asks for the record and the staged
/// directory of `id` to be removed.
pub open spec fn removed_within(steps: Seq<DeleteStep>, count: int, id: Seq<char>) -> bool {
    exists|i: int| 0 <= i < count && i < steps.len() && asks_removal(#[trigger] steps[i], id)
}

/// How many targets a machine in this phase has behind it.
pub open spec fn targets_behind(phase: DeletePhase) -> int {
    match phase {
        DeletePhase::Start => 0,
        DeletePhase::Walking(place) => place as int,
        DeletePhase::Down(place, _) => place as int,
        DeletePhase::Marking(place, _) => place as int,
        DeletePhase::Removing(place) => place + 1,
        DeletePhase::Finished => 0,
    }
}

/// In a run, the targets stay as they were, and the removal of every target
/// that the machine has behind it was asked for.
pub proof fn lemma_run_removes_in_turn(steps: Seq<DeleteStep>, count: int)
    requires
        is_run(steps),
        1 <= count <= steps.len(),
    ensures
        same_targets(steps[0].before, steps[count - 1].after),
        targets_behind(steps[count - 1].after.phase) <= steps[0].before.targets@.len(),
        forall|k: int|
            0 <= k < targets_behind(steps[count - 1].after.phase) ==> removed_within(
                steps,
                count,
                #[trigger] steps[0].before.targets@[k]@,
            ),
    decreases count,
{
    let first = steps[0].before;
    let step = steps[count - 1];
    assert(delete_step(step.before, step.event, step.after, step.action));
    assert(step.before.targets.len() == step.before.targets@.len());
    if count > 1 {
        lemma_run_removes_in_turn(steps, count - 1);
        assert(step.before == steps[count - 2].after);
        assert forall|k: int| 0 <= k < targets_behind(step.after.phase) implies removed_within(
            steps,
            count,
            #[trigger] first.targets@[k]@,
        ) by {
            if k < targets_behind(step.before.phase) {
                let i = choose|i: int|
                    0 <= i < count - 1 && i < steps.len() && asks_removal(
                        #[trigger] steps[i],
                        first.targets@[k]@,
                    );
                assert(asks_removal(steps[i], first.targets@[k]@));
            } else {
                assert(asks_removal(steps[count - 1], first.targets@[k]@));
            }
        }
    }
}

/// A delete that ends well has asked, for every one of its targets, that the
/// record be taken out of the store and the staged directory be removed. So
/// a delete of all applications that ends well has asked for the removal of
/// every application that the store held.
pub proof fn lemma_finished_delete_removed_all(steps: Seq<DeleteStep>)
    requires
        is_run(steps),
        steps.last().action matches DeleteAction::Finish(Outcome::Done),
    ensures
        forall|k: int|
            0 <= k < steps[0].before.targets@.len() ==> removed_within(
                steps,
                steps.len() as int,
                #[trigger] steps[0].before.targets@[k]@,
            ),
{
    let first = steps[0].before;
    let last = steps.last();
    let count = steps.len() as int;
    assert(delete_step(last.before, last.event, last.after, last.action));
    assert(last.before.targets.len() == last.before.targets@.len());
    if count > 1 {
        lemma_run_removes_in_turn(steps, count - 1);
        assert(last.before == steps[count - 2].after);
        assert forall|k: int| 0 <= k < first.targets@.len() implies removed_within(
            steps,
            count,
            #[trigger] first.targets@[k]@,
        ) by {
            let i = choose|i: int|
                0 <= i < count - 1 && i < steps.len() && asks_removal(
                    #[trigger] steps[i],
                    first.targets@[k]@,
                );
            assert(asks_removal(steps[i], first.targets@[k]@));
        }
    }
}

} // verus!
