//! The project of a session, and the transactions that change it.

use vstd::prelude::*;
use vstd::slice::slice_subrange;
use crate::api::entity::{Entity, EntityCollection, EntityView};
use crate::api::entity_types::Category;
use crate::error::{Error, ErrorView};
use crate::native::dispatch::{CallKind, Dispatch};
use crate::native::protocol::{
    ask,
    asked,
    bool_of,
    int_of,
    lemma_longer_transcript,
    object_of,
    read_bool,
    read_int,
    read_object,
    read_string,
    read_unit,
    string_of,
    transcript,
    unit_of,
    Reply,
    ReplyView,
    Step,
    StepView,
};
use crate::native::variant::{views, Variant, VariantView};
use crate::text::{decimal_text, with_code};

verus! {

/// The project that is open in the application.
///
/// A project is changed inside a transaction: start one with
/// [`Project::start_transaction`], make the changes, then commit it or roll
/// it back. Closing is asked of the parent, the application, and leaves this
/// value standing: what is called on it afterwards is for the application to
/// reject.
#[derive(Debug, Clone, Copy, PartialEq, Eq)]
pub struct Project {
    pub parent_handle: Dispatch,
    pub handle: Dispatch,
}

impl DeepView for Project {
    type V = Project;

    open spec fn deep_view(&self) -> Project {
        *self
    }
}

/// A transaction on a project, started when it was made.
#[derive(Debug, Clone, Copy, PartialEq, Eq)]
pub struct ProjectTransaction {
    pub handle: Dispatch,
}

impl DeepView for ProjectTransaction {
    type V = ProjectTransaction;

    open spec fn deep_view(&self) -> ProjectTransaction {
        *self
    }
}

impl Project {
    /// Makes a project from the handles of the application and of the
    /// project itself; fails with an internal error if either is null.
    pub fn new(parent_handle: Dispatch, handle: Dispatch) -> (result: Result<Project, Error>)
        ensures
            match result {
                Ok(project) => !handle.is_null_spec() && !parent_handle.is_null_spec() && project
                    == (Project { parent_handle, handle }),
                Err(e) => (handle.is_null_spec() || parent_handle.is_null_spec()) && e@
                    == ErrorView::Internal("Project handle is null"@),
            },
    {
        if handle.is_null() || parent_handle.is_null() {
            return Err(Error::Internal("Project handle is null".to_owned()));
        }
        Ok(Project { parent_handle, handle })
    }

    /// Where reading the path of the save file stands after `replies`: an
    /// empty path means that the project was never saved.
    pub open spec fn path_spec(self, replies: Seq<ReplyView>) -> StepView<Option<Seq<char>>> {
        if self.handle.is_null_spec() || replies.len() < 1 {
            asked(self.handle, CallKind::PropertyGet, "FilePath"@, Seq::empty())
        } else {
            match string_of(replies[0]) {
                Err(e) => StepView::Done(Err(e)),
                Ok(path) => StepView::Done(
                    Ok(
                        if path.len() == 0 {
                            None
                        } else {
                            Some(path)
                        },
                    ),
                ),
            }
        }
    }

    /// Returns the path of the save file, or `None` if the project was never saved.
    pub fn path(&self, replies: &[Reply]) -> (step: Step<Option<String>>)
        ensures
            step@ == self.path_spec(transcript(replies@)),
    {
        if self.handle.is_null() || replies.len() < 1 {
            return ask(self.handle.get("FilePath"));
        }
        match read_string(&replies[0]) {
            Err(e) => Step::Done(Err(e)),
            Ok(path) => if path.as_str().unicode_len() == 0 {
                Step::Done(Ok(None))
            } else {
                Step::Done(Ok(Some(path)))
            },
        }
    }

    /// Where saving stands after `replies`: a status other than zero is an
    /// internal error, and so is a project that has no path after it was saved.
    pub open spec fn save_spec(self, replies: Seq<ReplyView>) -> StepView<Seq<char>> {
        if self.handle.is_null_spec() || replies.len() < 1 {
            asked(self.handle, CallKind::Method, "Save"@, Seq::empty())
        } else {
            match int_of(replies[0]) {
                Err(e) => StepView::Done(Err(e)),
                Ok(code) => if code != 0 {
                    StepView::Done(
                        Err(
                            ErrorView::Internal(
                                "Failed to save project: error code "@ + decimal_text(code as int),
                            ),
                        ),
                    )
                } else {
                    match self.path_spec(replies.skip(1)) {
                        StepView::Call(invocation) => StepView::Call(invocation),
                        StepView::Done(Err(e)) => StepView::Done(Err(e)),
                        StepView::Done(Ok(Some(path))) => StepView::Done(Ok(path)),
                        StepView::Done(Ok(None)) => StepView::Done(
                            Err(ErrorView::Internal("Failed to get project path"@)),
                        ),
                    }
                },
            }
        }
    }

    /// Saves the project and returns the path of the save file.
    pub fn save(&self, replies: &[Reply]) -> (step: Step<String>)
        ensures
            step@ == self.save_spec(transcript(replies@)),
    {
        if self.handle.is_null() || replies.len() < 1 {
            return ask(self.handle.call("Save", None));
        }
        let code = match read_int(&replies[0]) {
            Ok(code) => code,
            Err(e) => {
                return Step::Done(Err(e));
            },
        };
        if code != 0 {
            return Step::Done(
                Err(Error::Internal(with_code("Failed to save project: error code ", code))),
            );
        }
        let rest = slice_subrange(replies, 1, replies.len());
        proof {
            assert(transcript(rest@) =~= transcript(replies@).skip(1));
        }
        match self.path(rest) {
            Step::Call(invocation) => Step::Call(invocation),
            Step::Done(Err(e)) => Step::Done(Err(e)),
            Step::Done(Ok(Some(path))) => Step::Done(Ok(path)),
            Step::Done(Ok(None)) => Step::Done(
                Err(Error::Internal("Failed to get project path".to_owned())),
            ),
        }
    }

    /// Where asking for unsaved changes stands after `replies`.
    pub open spec fn has_unsaved_changes_spec(self, replies: Seq<ReplyView>) -> StepView<bool> {
        if self.handle.is_null_spec() || replies.len() < 1 {
            asked(self.handle, CallKind::Method, "HasUnsavedChanges"@, Seq::empty())
        } else {
            StepView::Done(bool_of(replies[0]))
        }
    }

    /// Returns whether the project has unsaved changes.
    pub fn has_unsaved_changes(&self, replies: &[Reply]) -> (step: Step<bool>)
        ensures
            step@ == self.has_unsaved_changes_spec(transcript(replies@)),
    {
        if self.handle.is_null() || replies.len() < 1 {
            return ask(self.handle.call("HasUnsavedChanges", None));
        }
        Step::Done(read_bool(&replies[0]))
    }

    /// Where closing stands after `replies`: the request goes to the parent,
    /// and a status other than zero is an invalid operation.
    pub open spec fn close_spec(self, discard_changes: bool, replies: Seq<ReplyView>) -> StepView<
        (),
    > {
        if self.parent_handle.is_null_spec() || replies.len() < 1 {
            asked(
                self.parent_handle,
                CallKind::Method,
                "CloseProject"@,
                seq![VariantView::Bool(discard_changes)],
            )
        } else {
            match int_of(replies[0]) {
                Err(e) => StepView::Done(Err(e)),
                Ok(code) => if code != 0 {
                    StepView::Done(
                        Err(
                            ErrorView::InvalidOperation(
                                "Failed to close project: error code "@ + decimal_text(code as int),
                            ),
                        ),
                    )
                } else {
                    StepView::Done(Ok(()))
                },
            }
        }
    }

    /// Closes the project, discarding unsaved changes if `discard_changes` is set.
    pub fn close(&mut self, discard_changes: bool, replies: &[Reply]) -> (step: Step<()>)
        ensures
            *final(self) == *old(self),
            step@ == old(self).close_spec(discard_changes, transcript(replies@)),
    {
        if self.parent_handle.is_null() || replies.len() < 1 {
            let mut args: Vec<Variant> = Vec::new();
            args.push(Variant::Bool(discard_changes));
            proof {
                assert(views(args@) =~= seq![VariantView::Bool(discard_changes)]);
            }
            return ask(self.parent_handle.call("CloseProject", Some(args)));
        }
        match read_int(&replies[0]) {
            Err(e) => Step::Done(Err(e)),
            Ok(code) => if code != 0 {
                Step::Done(
                    Err(
                        Error::InvalidOperation(
                            with_code("Failed to close project: error code ", code),
                        ),
                    ),
                )
            } else {
                Step::Done(Ok(()))
            },
        }
    }

    /// Where asking for an active transaction stands after `replies`.
    pub open spec fn has_transaction_spec(self, replies: Seq<ReplyView>) -> StepView<bool> {
        if self.handle.is_null_spec() || replies.len() < 1 {
            asked(self.handle, CallKind::Method, "HasActiveOperation"@, Seq::empty())
        } else {
            StepView::Done(bool_of(replies[0]))
        }
    }

    /// Returns whether the project has an active transaction, as the
    /// application reports it now.
    pub fn has_transaction(&self, replies: &[Reply]) -> (step: Step<bool>)
        ensures
            step@ == self.has_transaction_spec(transcript(replies@)),
    {
        if self.handle.is_null() || replies.len() < 1 {
            return ask(self.handle.call("HasActiveOperation", None));
        }
        Step::Done(read_bool(&replies[0]))
    }

    /// Where starting a transaction stands after `replies`: it is refused as
    /// an invalid operation while another is active; otherwise a transaction
    /// is created and started before it is handed out.
    pub open spec fn start_transaction_spec(self, replies: Seq<ReplyView>) -> StepView<
        ProjectTransaction,
    > {
        match self.has_transaction_spec(replies) {
            StepView::Call(invocation) => StepView::Call(invocation),
            StepView::Done(Err(e)) => StepView::Done(Err(e)),
            StepView::Done(Ok(active)) => if active {
                StepView::Done(
                    Err(ErrorView::InvalidOperation("Project already has an active transaction"@)),
                )
            } else if replies.len() < 2 {
                asked(self.handle, CallKind::Method, "CreateOperation"@, Seq::empty())
            } else {
                match object_of(replies[1]) {
                    Err(e) => StepView::Done(Err(e)),
                    Ok(handle) => ProjectTransaction::new_spec(handle, replies.skip(2)),
                }
            },
        }
    }

    /// Starts a new transaction.
    pub fn start_transaction(&mut self, replies: &[Reply]) -> (step: Step<ProjectTransaction>)
        ensures
            *final(self) == *old(self),
            step@ == old(self).start_transaction_spec(transcript(replies@)),
    {
        let active = match self.has_transaction(replies) {
            Step::Call(invocation) => {
                return Step::Call(invocation);
            },
            Step::Done(Err(e)) => {
                return Step::Done(Err(e));
            },
            Step::Done(Ok(active)) => active,
        };
        if active {
            return Step::Done(
                Err(Error::InvalidOperation("Project already has an active transaction".to_owned())),
            );
        }
        if replies.len() < 2 {
            return ask(self.handle.call("CreateOperation", None));
        }
        let handle = match read_object(&replies[1]) {
            Ok(handle) => handle,
            Err(e) => {
                return Step::Done(Err(e));
            },
        };
        let rest = slice_subrange(replies, 2, replies.len());
        proof {
            assert(transcript(rest@) =~= transcript(replies@).skip(2));
        }
        ProjectTransaction::new(handle, rest)
    }

    /// The name of the property that holds the entities of `category`.
    pub open spec fn category_member(category: Category) -> Seq<char> {
        category.name_spec() + "Categories"@
    }

    /// Where fetching the entities of `category` stands after `replies`.
    pub open spec fn category_spec(self, category: Category, replies: Seq<ReplyView>) -> StepView<
        EntityCollection,
    > {
        if self.handle.is_null_spec() || replies.len() < 1 {
            asked(self.handle, CallKind::PropertyGet, Self::category_member(category), Seq::empty())
        } else {
            match object_of(replies[0]) {
                Err(e) => StepView::Done(Err(e)),
                Ok(handle) => StepView::Done(Ok(EntityCollection { handle })),
            }
        }
    }

    /// Returns the collection of the entities of `category`.
    pub fn category(&self, category: Category, replies: &[Reply]) -> (step: Step<EntityCollection>)
        ensures
            step@ == self.category_spec(category, transcript(replies@)),
    {
        if self.handle.is_null() || replies.len() < 1 {
            let member = String::from_str(category.name()).concat("Categories");
            return ask(self.handle.get(member.as_str()));
        }
        match read_object(&replies[0]) {
            Err(e) => Step::Done(Err(e)),
            Ok(handle) => Step::Done(EntityCollection::new(handle)),
        }
    }

    /// Where importing an entity of `category` from the file at `path`
    /// stands after `replies`: the category goes out as the canonical text of
    /// its identifier, the path unchanged, and a snapshot is taken of the
    /// object that comes back.
    pub open spec fn import_category_spec(
        self,
        category: Category,
        path: Seq<char>,
        replies: Seq<ReplyView>,
    ) -> StepView<EntityView> {
        if self.handle.is_null_spec() || replies.len() < 1 {
            asked(
                self.handle,
                CallKind::Method,
                "ImportCategoryS"@,
                seq![VariantView::Str(category.uuid_spec().canonical()), VariantView::Str(path)],
            )
        } else {
            match object_of(replies[0]) {
                Err(e) => StepView::Done(Err(e)),
                Ok(handle) => Entity::new_spec(handle, replies.skip(1)),
            }
        }
    }

    /// Imports an entity of `category` from the file at `path`.
    pub fn import_category(&mut self, category: Category, path: &str, replies: &[Reply]) -> (step:
        Step<Entity>)
        ensures
            *final(self) == *old(self),
            step@ == old(self).import_category_spec(category, path@, transcript(replies@)),
    {
        if self.handle.is_null() || replies.len() < 1 {
            let mut args: Vec<Variant> = Vec::new();
            args.push(Variant::Str(category.to_sanitized_string()));
            args.push(Variant::Str(path.to_owned()));
            proof {
                assert(views(args@) =~= seq![
                    VariantView::Str(category.uuid_spec().canonical()),
                    VariantView::Str(path@),
                ]);
            }
            return ask(self.handle.call("ImportCategoryS", Some(args)));
        }
        let handle = match read_object(&replies[0]) {
            Ok(handle) => handle,
            Err(e) => {
                return Step::Done(Err(e));
            },
        };
        let rest = slice_subrange(replies, 1, replies.len());
        proof {
            assert(transcript(rest@) =~= transcript(replies@).skip(1));
        }
        Entity::new(handle, rest)
    }
}

impl Project {
    /// A second transaction is refused: whenever the application reports an
    /// active transaction, [`Project::start_transaction`] fails with an
    /// invalid operation, whatever replies follow, and hands out no
    /// transaction.
    pub proof fn lemma_second_transaction_refused(self, replies: Seq<ReplyView>)
        requires
            !self.handle.is_null_spec(),
            replies.len() >= 1,
            bool_of(replies[0]) == Ok::<bool, ErrorView>(true),
        ensures
            self.start_transaction_spec(replies) == StepView::<ProjectTransaction>::Done(
                Err(ErrorView::InvalidOperation("Project already has an active transaction"@)),
            ),
    {
    }

    /// A transaction that is handed out was started: where
    /// [`Project::start_transaction`] succeeds, the application had reported
    /// no active transaction, and the calls to create the transaction and to
    /// start it had both succeeded.
    pub proof fn lemma_transaction_is_started(self, replies: Seq<ReplyView>)
        requires
            self.start_transaction_spec(replies) matches StepView::Done(Ok(_)),
        ensures
            replies.len() >= 3,
            bool_of(replies[0]) == Ok::<bool, ErrorView>(false),
            object_of(replies[1]) is Ok,
            replies[2] is Ok,
            self.start_transaction_spec(replies) == StepView::Done(
                Ok::<ProjectTransaction, ErrorView>(
                    ProjectTransaction { handle: object_of(replies[1])->Ok_0 },
                ),
            ),
    {
    }

    /// Whether a transaction is active is read anew every time: what
    /// [`Project::has_transaction`] returns is what the reply to its own
    /// request holds, and nothing that happened before.
    pub proof fn lemma_has_transaction_reads_through(self, other: Project, replies: Seq<ReplyView>)
        requires
            !self.handle.is_null_spec(),
            !other.handle.is_null_spec(),
            replies.len() >= 1,
        ensures
            self.has_transaction_spec(replies) == StepView::Done(bool_of(replies[0])),
            self.has_transaction_spec(replies) == other.has_transaction_spec(replies),
            self.has_transaction_spec(Seq::empty()) == asked::<bool>(
                self.handle,
                CallKind::Method,
                "HasActiveOperation"@,
                Seq::empty(),
            ),
    {
    }

    /// Closing is not idempotent on the side of the project: every call of
    /// [`Project::close`] puts its request to the parent again, and a status
    /// other than zero always comes back as an invalid operation.
    pub proof fn lemma_close_is_asked_every_time(
        self,
        discard_changes: bool,
        replies: Seq<ReplyView>,
        code: i32,
    )
        requires
            !self.parent_handle.is_null_spec(),
            replies.len() >= 1,
            int_of(replies[0]) == Ok::<i32, ErrorView>(code),
        ensures
            self.close_spec(discard_changes, Seq::empty()) == asked::<()>(
                self.parent_handle,
                CallKind::Method,
                "CloseProject"@,
                seq![VariantView::Bool(discard_changes)],
            ),
            code != 0 ==> self.close_spec(discard_changes, replies) == StepView::<()>::Done(
                Err(
                    ErrorView::InvalidOperation(
                        "Failed to close project: error code "@ + decimal_text(code as int),
                    ),
                ),
            ),
            code == 0 ==> self.close_spec(discard_changes, replies) == StepView::Done(
                Ok::<(), ErrorView>(()),
            ),
    {
    }
}

impl Project {
    /// Replies beyond those read are ignored: once an operation on the
    /// project is done, it stays done with the same result whatever replies
    /// follow.
    pub proof fn lemma_operations_settle(
        self,
        category: Category,
        path: Seq<char>,
        discard_changes: bool,
        replies: Seq<ReplyView>,
        more: Seq<ReplyView>,
    )
        ensures
            self.path_spec(replies) is Done ==> self.path_spec(replies + more) == self.path_spec(
                replies,
            ),
            self.save_spec(replies) is Done ==> self.save_spec(replies + more) == self.save_spec(
                replies,
            ),
            self.has_unsaved_changes_spec(replies) is Done ==> self.has_unsaved_changes_spec(
                replies + more,
            ) == self.has_unsaved_changes_spec(replies),
            self.close_spec(discard_changes, replies) is Done ==> self.close_spec(
                discard_changes,
                replies + more,
            ) == self.close_spec(discard_changes, replies),
            self.has_transaction_spec(replies) is Done ==> self.has_transaction_spec(replies + more)
                == self.has_transaction_spec(replies),
            self.start_transaction_spec(replies) is Done ==> self.start_transaction_spec(
                replies + more,
            ) == self.start_transaction_spec(replies),
            self.category_spec(category, replies) is Done ==> self.category_spec(
                category,
                replies + more,
            ) == self.category_spec(category, replies),
            self.import_category_spec(category, path, replies) is Done
                ==> self.import_category_spec(category, path, replies + more)
                == self.import_category_spec(category, path, replies),
    {
        lemma_longer_transcript(replies, more, 0);
        if replies.len() >= 1 {
            lemma_longer_transcript(replies, more, 1);
            lemma_longer_transcript(replies.skip(1), more, 0);
            if !self.handle.is_null_spec() && object_of(replies[0]) is Ok
                && self.import_category_spec(category, path, replies) is Done {
                Entity::lemma_snapshot_settles(object_of(replies[0])->Ok_0, replies.skip(1), more);
            }
        }
        if replies.len() >= 2 {
            lemma_longer_transcript(replies, more, 2);
            lemma_longer_transcript(replies.skip(2), more, 0);
        }
    }
}

impl ProjectTransaction {
    /// Where making a transaction over `handle` stands after `replies`: a
    /// null handle fails at once; otherwise the transaction is started, and
    /// handed out only if that succeeded.
    pub open spec fn new_spec(handle: Dispatch, replies: Seq<ReplyView>) -> StepView<
        ProjectTransaction,
    > {
        if handle.is_null_spec() {
            StepView::Done(Err(ErrorView::Internal("IOperation handle is null"@)))
        } else if replies.len() < 1 {
            asked(handle, CallKind::Method, "Start"@, Seq::empty())
        } else {
            match unit_of(replies[0]) {
                Err(e) => StepView::Done(Err(e)),
                Ok(_) => StepView::Done(Ok(ProjectTransaction { handle })),
            }
        }
    }

    /// Makes a transaction over `handle` and starts it.
    pub fn new(handle: Dispatch, replies: &[Reply]) -> (step: Step<ProjectTransaction>)
        ensures
            step@ == Self::new_spec(handle, transcript(replies@)),
    {
        if handle.is_null() {
            return Step::Done(Err(Error::Internal("IOperation handle is null".to_owned())));
        }
        let mut this = ProjectTransaction { handle };
        match this.start(replies) {
            Step::Call(invocation) => Step::Call(invocation),
            Step::Done(Err(e)) => Step::Done(Err(e)),
            Step::Done(Ok(_)) => Step::Done(Ok(this)),
        }
    }

    /// Where a call of the member `member` without arguments, whose result
    /// does not matter, stands after `replies`.
    pub open spec fn plain_call_spec(self, member: Seq<char>, replies: Seq<ReplyView>) -> StepView<
        (),
    > {
        if self.handle.is_null_spec() || replies.len() < 1 {
            asked(self.handle, CallKind::Method, member, Seq::empty())
        } else {
            StepView::Done(unit_of(replies[0]))
        }
    }

    /// Calls the member `member` without arguments.
    fn plain_call(&self, member: &str, replies: &[Reply]) -> (step: Step<()>)
        ensures
            step@ == self.plain_call_spec(member@, transcript(replies@)),
    {
        if self.handle.is_null() || replies.len() < 1 {
            return ask(self.handle.call(member, None));
        }
        Step::Done(read_unit(&replies[0]))
    }

    /// Commits the changes made in the transaction to the project.
    pub fn commit(&mut self, replies: &[Reply]) -> (step: Step<()>)
        ensures
            *final(self) == *old(self),
            step@ == old(self).plain_call_spec("Apply"@, transcript(replies@)),
    {
        self.plain_call("Apply", replies)
    }

    /// Rolls the changes made in the transaction back.
    pub fn rollback(&mut self, replies: &[Reply]) -> (step: Step<()>)
        ensures
            *final(self) == *old(self),
            step@ == old(self).plain_call_spec("Rollback"@, transcript(replies@)),
    {
        self.plain_call("Rollback", replies)
    }

    /// Starts the transaction.
    fn start(&mut self, replies: &[Reply]) -> (step: Step<()>)
        ensures
            *final(self) == *old(self),
            step@ == old(self).plain_call_spec("Start"@, transcript(replies@)),
    {
        self.plain_call("Start", replies)
    }
}

} // verus!
