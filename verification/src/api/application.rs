//! The application: the root of the object graph and of every session.

use vstd::prelude::*;
use vstd::slice::slice_subrange;
use crate::api::project::Project;
use crate::error::{Error, ErrorView};
use crate::native::dispatch::{null_handle_message, request, CallKind, Dispatch, Invocation};
use crate::native::protocol::{
    ask,
    asked,
    bool_of,
    int_of,
    lemma_longer_transcript,
    object_of,
    read_bool,
    read_int,
    read_object,
    read_string,
    read_unit,
    reply_view,
    string_of,
    transcript,
    unit_of,
    Reply,
    ReplyView,
    Step,
    StepView,
};
use crate::native::records::version::{version_of, Version};
use crate::native::runtime::ComRuntime;
use crate::native::variant::{views, Variant, VariantView};
use crate::text::{decimal_text, with_code};

verus! {

/// The name of the class of the application's root object.
pub const CLASS_NAME: &'static str = "Renga.Application.1";

/// One running application.
///
/// It owns the guard of the foreign call subsystem under which it was
/// instantiated, and the handle of its root object. It is made by
/// [`Application::init`] with user input disabled; [`Application::new`] or
/// [`Application::new_hidden`] make it ready. [`Application::teardown`] ends it.
#[derive(Debug)]
pub struct Application {
    pub locale: String,
    pub handle: Dispatch,
    pub com: ComRuntime,
}

/// The mathematical value of an [`Application`].
pub struct ApplicationView {
    pub locale: Seq<char>,
    pub handle: Dispatch,
}

impl View for Application {
    type V = ApplicationView;

    open spec fn view(&self) -> ApplicationView {
        ApplicationView { locale: self.locale@, handle: self.handle }
    }
}

/// The locale that a reply to the locale request gives: the string that it
/// holds, or `C` if the call failed or gave no string.
pub open spec fn locale_of(reply: ReplyView) -> Seq<char> {
    match string_of(reply) {
        Ok(locale) => locale,
        Err(_) => "C"@,
    }
}

/// The views of a sequence of errors, in the same order.
pub open spec fn error_views(errors: Seq<Error>) -> Seq<ErrorView> {
    errors.map_values(|e: Error| e@)
}

/// The failure with which a step ended, if it ended with one.
pub open spec fn failure_of<V>(step: StepView<V>) -> Seq<ErrorView> {
    match step {
        StepView::Done(Err(e)) => seq![e],
        _ => Seq::empty(),
    }
}

/// Appends the failure with which `step` ended, if it ended with one.
fn record(failures: &mut Vec<Error>, step: Step<()>)
    ensures
        error_views(final(failures)@) == error_views(old(failures)@) + failure_of(step@),
{
    match step {
        Step::Done(Err(e)) => {
            failures.push(e);
            proof {
                assert(error_views(final(failures)@) =~= error_views(old(failures)@) + seq![e@]);
            }
        },
        _ => {
            proof {
                assert(error_views(final(failures)@) =~= error_views(old(failures)@)
                    + Seq::<ErrorView>::empty());
            }
        },
    }
}

impl Application {
    /// The request whose reply [`Application::init`] reads.
    pub fn locale_request(handle: &Dispatch) -> (result: Result<Invocation, Error>)
        ensures
            match result {
                Ok(invocation) => !handle.is_null_spec() && invocation@ == request(
                    *handle,
                    CallKind::Method,
                    "GetCurrentLocale"@,
                    Seq::empty(),
                ),
                Err(e) => handle.is_null_spec() && e@ == ErrorView::Internal(null_handle_message()),
            },
    {
        handle.call("GetCurrentLocale", None)
    }

    /// Makes the application over its guard and the handle of its root
    /// object, with the locale that `reply` gives. This does not fail: where
    /// no locale can be read, the locale is `C`.
    pub fn init(com: ComRuntime, handle: Dispatch, reply: &Reply) -> (application: Application)
        ensures
            application@ == (ApplicationView {
                locale: locale_of(reply_view(*reply)),
                handle,
            }),
            application.com == com,
    {
        let locale = match read_string(reply) {
            Ok(locale) => locale,
            Err(_) => "C".to_owned(),
        };
        Application { locale, handle, com }
    }

    /// Where a call of the method `member` without arguments, whose result
    /// does not matter, stands after `replies`.
    pub open spec fn plain_call_spec(self, member: Seq<char>, replies: Seq<ReplyView>) -> StepView<
        (),
    > {
        if self@.handle.is_null_spec() || replies.len() < 1 {
            asked(self@.handle, CallKind::Method, member, Seq::empty())
        } else {
            StepView::Done(unit_of(replies[0]))
        }
    }

    /// Where writing the boolean `value` to the property `member` stands
    /// after `replies`.
    pub open spec fn put_flag_spec(
        self,
        member: Seq<char>,
        value: bool,
        replies: Seq<ReplyView>,
    ) -> StepView<()> {
        if self@.handle.is_null_spec() || replies.len() < 1 {
            asked(self@.handle, CallKind::PropertyPut, member, seq![VariantView::Bool(value)])
        } else {
            StepView::Done(unit_of(replies[0]))
        }
    }

    /// Where reading the boolean property `member` stands after `replies`.
    pub open spec fn get_flag_spec(self, member: Seq<char>, replies: Seq<ReplyView>) -> StepView<
        bool,
    > {
        if self@.handle.is_null_spec() || replies.len() < 1 {
            asked(self@.handle, CallKind::PropertyGet, member, Seq::empty())
        } else {
            StepView::Done(bool_of(replies[0]))
        }
    }

    /// Writes the boolean `value` to the property `member`.
    fn put_flag(&self, member: &str, value: bool, replies: &[Reply]) -> (step: Step<()>)
        ensures
            step@ == self.put_flag_spec(member@, value, transcript(replies@)),
    {
        if self.handle.is_null() || replies.len() < 1 {
            return ask(self.handle.set(member, Variant::Bool(value)));
        }
        Step::Done(read_unit(&replies[0]))
    }

    /// Reads the boolean property `member`.
    fn get_flag(&self, member: &str, replies: &[Reply]) -> (step: Step<bool>)
        ensures
            step@ == self.get_flag_spec(member@, transcript(replies@)),
    {
        if self.handle.is_null() || replies.len() < 1 {
            return ask(self.handle.get(member));
        }
        Step::Done(read_bool(&replies[0]))
    }

    /// Where making the application ready stands after `replies`: user input
    /// is enabled first, then the user interface is made visible or hidden.
    pub open spec fn ready_spec(self, visible: bool, replies: Seq<ReplyView>) -> StepView<()> {
        match self.put_flag_spec("Enabled"@, true, replies) {
            StepView::Call(invocation) => StepView::Call(invocation),
            StepView::Done(Err(e)) => StepView::Done(Err(e)),
            StepView::Done(Ok(_)) => self.put_flag_spec("Visible"@, visible, replies.skip(1)),
        }
    }

    /// Makes the application ready, with the user interface as `visible` says.
    fn make_ready(&mut self, visible: bool, replies: &[Reply]) -> (step: Step<()>)
        ensures
            *final(self) == *old(self),
            step@ == old(self).ready_spec(visible, transcript(replies@)),
    {
        match self.set_enabled(true, replies) {
            Step::Call(invocation) => {
                return Step::Call(invocation);
            },
            Step::Done(Err(e)) => {
                return Step::Done(Err(e));
            },
            Step::Done(Ok(_)) => {},
        }
        let rest = slice_subrange(replies, 1, replies.len());
        proof {
            assert(transcript(rest@) =~= transcript(replies@).skip(1));
        }
        self.set_visible(visible, rest)
    }

    /// Makes the application ready for use, with its user interface shown.
    pub fn new(&mut self, replies: &[Reply]) -> (step: Step<()>)
        ensures
            *final(self) == *old(self),
            step@ == old(self).ready_spec(true, transcript(replies@)),
    {
        self.make_ready(true, replies)
    }

    /// Makes the application ready for use, without a user interface.
    pub fn new_hidden(&mut self, replies: &[Reply]) -> (step: Step<()>)
        ensures
            *final(self) == *old(self),
            step@ == old(self).ready_spec(false, transcript(replies@)),
    {
        self.make_ready(false, replies)
    }

    /// Tries to close the application.
    pub fn try_quit(&mut self, replies: &[Reply]) -> (step: Step<()>)
        ensures
            *final(self) == *old(self),
            step@ == old(self).plain_call_spec("Quit"@, transcript(replies@)),
    {
        if self.handle.is_null() || replies.len() < 1 {
            return ask(self.handle.call("Quit", None));
        }
        Step::Done(read_unit(&replies[0]))
    }

    /// Where closing the application without regard to failure stands after
    /// `replies`: once the attempt was made or could not be made, it is done.
    pub open spec fn quit_spec(self, replies: Seq<ReplyView>) -> StepView<()> {
        match self.plain_call_spec("Quit"@, replies) {
            StepView::Call(invocation) => StepView::Call(invocation),
            StepView::Done(_) => StepView::Done(Ok(())),
        }
    }

    /// Closes the application. This does not fail: an error of the attempt
    /// is dropped.
    pub fn quit(&mut self, replies: &[Reply]) -> (step: Step<()>)
        ensures
            *final(self) == *old(self),
            step@ == old(self).quit_spec(transcript(replies@)),
    {
        match self.try_quit(replies) {
            Step::Call(invocation) => Step::Call(invocation),
            Step::Done(_) => Step::Done(Ok(())),
        }
    }

    /// Where reading the version stands after `replies`.
    pub open spec fn version_spec(self, replies: Seq<ReplyView>) -> StepView<Version> {
        if self@.handle.is_null_spec() || replies.len() < 1 {
            asked(self@.handle, CallKind::PropertyGet, "Version"@, Seq::empty())
        } else {
            match replies[0] {
                Err(e) => StepView::Done(Err(e)),
                Ok(value) => StepView::Done(version_of(value)),
            }
        }
    }

    /// Returns the version of the application.
    pub fn version(&self, replies: &[Reply]) -> (step: Step<Version>)
        ensures
            step@ == self.version_spec(transcript(replies@)),
    {
        if self.handle.is_null() || replies.len() < 1 {
            return ask(self.handle.get("Version"));
        }
        match &replies[0] {
            Err(e) => Step::Done(Err(e.duplicate())),
            Ok(value) => Step::Done(Version::from_variant(value)),
        }
    }

    /// Returns whether user input is enabled.
    pub fn enabled(&self, replies: &[Reply]) -> (step: Step<bool>)
        ensures
            step@ == self.get_flag_spec("Enabled"@, transcript(replies@)),
    {
        self.get_flag("Enabled", replies)
    }

    /// Returns whether the user interface is visible.
    pub fn visible(&self, replies: &[Reply]) -> (step: Step<bool>)
        ensures
            step@ == self.get_flag_spec("Visible"@, transcript(replies@)),
    {
        self.get_flag("Visible", replies)
    }

    /// Enables or disables user input.
    pub fn set_enabled(&mut self, value: bool, replies: &[Reply]) -> (step: Step<()>)
        ensures
            *final(self) == *old(self),
            step@ == old(self).put_flag_spec("Enabled"@, value, transcript(replies@)),
    {
        self.put_flag("Enabled", value, replies)
    }

    /// Shows or hides the user interface.
    pub fn set_visible(&mut self, value: bool, replies: &[Reply]) -> (step: Step<()>)
        ensures
            *final(self) == *old(self),
            step@ == old(self).put_flag_spec("Visible"@, value, transcript(replies@)),
    {
        self.put_flag("Visible", value, replies)
    }

    /// Where fetching the current project stands after `replies`: the
    /// property is read, and a value that holds no live object means that
    /// there is no project.
    pub open spec fn get_project_spec(self, replies: Seq<ReplyView>) -> StepView<Option<Project>> {
        if self@.handle.is_null_spec() || replies.len() < 1 {
            asked(self@.handle, CallKind::PropertyGet, "Project"@, Seq::empty())
        } else {
            match replies[0] {
                Err(e) => StepView::Done(Err(e)),
                Ok(value) => match value.object() {
                    Ok(handle) => StepView::Done(
                        Ok(Some(Project { parent_handle: self@.handle, handle })),
                    ),
                    Err(_) => StepView::Done(Ok(None)),
                },
            }
        }
    }

    /// Fetches the current project.
    fn get_project(&mut self, replies: &[Reply]) -> (step: Step<Option<Project>>)
        ensures
            *final(self) == *old(self),
            step@ == old(self).get_project_spec(transcript(replies@)),
    {
        if self.handle.is_null() || replies.len() < 1 {
            return ask(self.handle.get("Project"));
        }
        match &replies[0] {
            Err(e) => Step::Done(Err(e.duplicate())),
            Ok(value) => match value.into_dispatch() {
                Ok(handle) => match Project::new(self.handle, handle) {
                    Ok(project) => Step::Done(Ok(Some(project))),
                    Err(e) => Step::Done(Err(e)),
                },
                Err(_) => Step::Done(Ok(None)),
            },
        }
    }

    /// Where asking for the current project stands after `replies`: a
    /// failure to fetch it counts as no project too.
    pub open spec fn project_spec(self, replies: Seq<ReplyView>) -> StepView<Option<Project>> {
        match self.get_project_spec(replies) {
            StepView::Call(invocation) => StepView::Call(invocation),
            StepView::Done(Ok(project)) => StepView::Done(Ok(project)),
            StepView::Done(Err(_)) => StepView::Done(Ok(None)),
        }
    }

    /// Returns the current project, or `None` if no project is open.
    pub fn project(&mut self, replies: &[Reply]) -> (step: Step<Option<Project>>)
        ensures
            *final(self) == *old(self),
            step@ == old(self).project_spec(transcript(replies@)),
    {
        match self.get_project(replies) {
            Step::Call(invocation) => Step::Call(invocation),
            Step::Done(Ok(project)) => Step::Done(Ok(project)),
            Step::Done(Err(_)) => Step::Done(Ok(None)),
        }
    }

    /// Where the second half of creating or opening a project stands after
    /// `replies`, the first of which is the status of the request: a status
    /// other than zero means that a project is already opened, with the
    /// message `refused` and the status; otherwise the current project is
    /// fetched anew, and its absence is an internal error with the message
    /// `missing`.
    pub open spec fn opened_spec(
        self,
        refused: Seq<char>,
        missing: Seq<char>,
        replies: Seq<ReplyView>,
    ) -> StepView<Project>
        recommends
            replies.len() >= 1,
    {
        match int_of(replies[0]) {
            Err(e) => StepView::Done(Err(e)),
            Ok(code) => if code != 0 {
                StepView::Done(
                    Err(ErrorView::AlreadyOpened(refused + decimal_text(code as int))),
                )
            } else {
                match self.get_project_spec(replies.skip(1)) {
                    StepView::Call(invocation) => StepView::Call(invocation),
                    StepView::Done(Err(e)) => StepView::Done(Err(e)),
                    StepView::Done(Ok(None)) => StepView::Done(Err(ErrorView::Internal(missing))),
                    StepView::Done(Ok(Some(project))) => StepView::Done(Ok(project)),
                }
            },
        }
    }

    /// Reads the status of a request to create or open a project, and
    /// fetches the project.
    fn opened(&mut self, refused: &str, missing: &str, replies: &[Reply]) -> (step: Step<Project>)
        requires
            replies@.len() >= 1,
        ensures
            *final(self) == *old(self),
            step@ == old(self).opened_spec(refused@, missing@, transcript(replies@)),
    {
        let code = match read_int(&replies[0]) {
            Ok(code) => code,
            Err(e) => {
                return Step::Done(Err(e));
            },
        };
        if code != 0 {
            return Step::Done(Err(Error::AlreadyOpened(with_code(refused, code))));
        }
        let rest = slice_subrange(replies, 1, replies.len());
        proof {
            assert(transcript(rest@) =~= transcript(replies@).skip(1));
        }
        match self.get_project(rest) {
            Step::Call(invocation) => Step::Call(invocation),
            Step::Done(Err(e)) => Step::Done(Err(e)),
            Step::Done(Ok(None)) => Step::Done(Err(Error::Internal(missing.to_owned()))),
            Step::Done(Ok(Some(project))) => Step::Done(Ok(project)),
        }
    }

    /// Where creating a project stands after `replies`.
    pub open spec fn new_project_spec(self, replies: Seq<ReplyView>) -> StepView<Project> {
        if self@.handle.is_null_spec() || replies.len() < 1 {
            asked(self@.handle, CallKind::Method, "CreateProject"@, Seq::empty())
        } else {
            self.opened_spec(
                "Failed to create new project: error code "@,
                "Failed to create new project"@,
                replies,
            )
        }
    }

    /// Creates a new project.
    pub fn new_project(&mut self, replies: &[Reply]) -> (step: Step<Project>)
        ensures
            *final(self) == *old(self),
            step@ == old(self).new_project_spec(transcript(replies@)),
    {
        if self.handle.is_null() || replies.len() < 1 {
            return ask(self.handle.call("CreateProject", None));
        }
        self.opened(
            "Failed to create new project: error code ",
            "Failed to create new project",
            replies,
        )
    }

    /// Where opening the project at `path` stands after `replies`: a path
    /// that does not exist fails before any request is made.
    pub open spec fn open_project_spec(
        self,
        path: Seq<char>,
        exists: bool,
        replies: Seq<ReplyView>,
    ) -> StepView<Project> {
        if !exists {
            StepView::Done(
                Err(ErrorView::NonexistentPath("Project path does not exist: "@ + path)),
            )
        } else if self@.handle.is_null_spec() || replies.len() < 1 {
            asked(self@.handle, CallKind::Method, "OpenProject"@, seq![VariantView::Str(path)])
        } else {
            self.opened_spec(
                "Failed to open project: error code "@,
                "Failed to open project"@,
                replies,
            )
        }
    }

    /// Opens the project at `path`; `exists` says whether the host found
    /// the path to exist.
    pub fn open_project(&mut self, path: &str, exists: bool, replies: &[Reply]) -> (step: Step<
        Project,
    >)
        ensures
            *final(self) == *old(self),
            step@ == old(self).open_project_spec(path@, exists, transcript(replies@)),
    {
        if !exists {
            return Step::Done(
                Err(
                    Error::NonexistentPath(
                        String::from_str("Project path does not exist: ").concat(path),
                    ),
                ),
            );
        }
        if self.handle.is_null() || replies.len() < 1 {
            let mut args: Vec<Variant> = Vec::new();
            args.push(Variant::Str(path.to_owned()));
            proof {
                assert(views(args@) =~= seq![VariantView::Str(path@)]);
            }
            return ask(self.handle.call("OpenProject", Some(args)));
        }
        self.opened("Failed to open project: error code ", "Failed to open project", replies)
    }

    /// Where asking for the main window stands after `replies`: a handle of
    /// zero is an internal error.
    pub open spec fn native_window_handle_spec(self, replies: Seq<ReplyView>) -> StepView<isize> {
        if self@.handle.is_null_spec() || replies.len() < 1 {
            asked(self@.handle, CallKind::Method, "GetMainWindowHandle"@, Seq::empty())
        } else {
            match int_of(replies[0]) {
                Err(e) => StepView::Done(Err(e)),
                Ok(raw) => if raw == 0 {
                    StepView::Done(
                        Err(ErrorView::Internal("Failed to get native window handle"@)),
                    )
                } else {
                    StepView::Done(Ok(raw as isize))
                },
            }
        }
    }

    /// Returns the native handle of the main window.
    pub fn native_window_handle(&self, replies: &[Reply]) -> (step: Step<isize>)
        ensures
            step@ == self.native_window_handle_spec(transcript(replies@)),
    {
        if self.handle.is_null() || replies.len() < 1 {
            return ask(self.handle.call("GetMainWindowHandle", None));
        }
        match read_int(&replies[0]) {
            Err(e) => Step::Done(Err(e)),
            Ok(raw) => if raw == 0 {
                Step::Done(Err(Error::Internal("Failed to get native window handle".to_owned())))
            } else {
                Step::Done(Ok(raw as isize))
            },
        }
    }

    /// Where ending the session stands after `replies`: the current
    /// project, if there is one, is closed and its changes discarded; then
    /// the application is closed. No failure on the way stops it, and it
    /// ends without an error.
    pub open spec fn teardown_spec(self, replies: Seq<ReplyView>) -> StepView<()> {
        if self@.handle.is_null_spec() {
            StepView::Done(Ok(()))
        } else {
            match self.project_spec(replies) {
                StepView::Call(invocation) => StepView::Call(invocation),
                StepView::Done(Ok(Some(project))) => match project.close_spec(
                    true,
                    replies.skip(1),
                ) {
                    StepView::Call(invocation) => StepView::Call(invocation),
                    StepView::Done(_) => self.quit_spec(replies.skip(2)),
                },
                StepView::Done(_) => self.quit_spec(replies.skip(1)),
            }
        }
    }

    /// Ends the session: closes the current project, discarding its
    /// changes, and closes the application.
    pub fn teardown(&mut self, replies: &[Reply]) -> (step: Step<()>)
        ensures
            *final(self) == *old(self),
            step@ == old(self).teardown_spec(transcript(replies@)),
    {
        let project = match self.project(replies) {
            Step::Call(invocation) => {
                return Step::Call(invocation);
            },
            Step::Done(Ok(project)) => project,
            Step::Done(Err(_)) => None,
        };
        match project {
            Some(mut open) => {
                let rest = slice_subrange(replies, 1, replies.len());
                proof {
                    assert(transcript(rest@) =~= transcript(replies@).skip(1));
                }
                match open.close(true, rest) {
                    Step::Call(invocation) => Step::Call(invocation),
                    Step::Done(_) => {
                        let rest = slice_subrange(replies, 2, replies.len());
                        proof {
                            assert(transcript(rest@) =~= transcript(replies@).skip(2));
                        }
                        self.quit(rest)
                    },
                }
            },
            None => {
                if replies.len() < 1 {
                    self.quit(replies)
                } else {
                    let rest = slice_subrange(replies, 1, replies.len());
                    proof {
                        assert(transcript(rest@) =~= transcript(replies@).skip(1));
                    }
                    self.quit(rest)
                }
            },
        }
    }

    /// The failures that ending the session has met and passed over after
    /// `replies`, in the order in which it met them: that of closing the
    /// project, then that of closing the application. That no project could
    /// be fetched is no failure.
    pub open spec fn teardown_failures_spec(self, replies: Seq<ReplyView>) -> Seq<ErrorView> {
        if self@.handle.is_null_spec() {
            failure_of(self.plain_call_spec("Quit"@, replies))
        } else {
            match self.project_spec(replies) {
                StepView::Call(_) => Seq::empty(),
                StepView::Done(Ok(Some(project))) => match project.close_spec(
                    true,
                    replies.skip(1),
                ) {
                    StepView::Call(_) => Seq::empty(),
                    StepView::Done(closed) => failure_of(StepView::Done(closed)) + failure_of(
                        self.plain_call_spec("Quit"@, replies.skip(2)),
                    ),
                },
                StepView::Done(_) => failure_of(self.plain_call_spec("Quit"@, replies.skip(1))),
            }
        }
    }

    /// Returns the failures that [`Application::teardown`] has met and passed
    /// over, for the host to record.
    pub fn teardown_failures(&mut self, replies: &[Reply]) -> (failures: Vec<Error>)
        ensures
            *final(self) == *old(self),
            error_views(failures@) == old(self).teardown_failures_spec(transcript(replies@)),
    {
        let mut failures: Vec<Error> = Vec::new();
        if self.handle.is_null() {
            record(&mut failures, self.try_quit(replies));
            return failures;
        }
        let project = match self.project(replies) {
            Step::Call(_) => {
                return failures;
            },
            Step::Done(Ok(project)) => project,
            Step::Done(Err(_)) => None,
        };
        let read: usize = match project {
            Some(mut open) => {
                let rest = slice_subrange(replies, 1, replies.len());
                proof {
                    assert(transcript(rest@) =~= transcript(replies@).skip(1));
                }
                match open.close(true, rest) {
                    Step::Call(_) => {
                        return failures;
                    },
                    closed => {
                        record(&mut failures, closed);
                    },
                }
                2
            },
            None => 1,
        };
        let rest = slice_subrange(replies, read, replies.len());
        proof {
            assert(transcript(rest@) =~= transcript(replies@).skip(read as int));
        }
        record(&mut failures, self.try_quit(rest));
        failures
    }

    /// A project that was created is the current project: where
    /// [`Application::new_project`] succeeds on `replies`, what
    /// [`Application::project`] makes of the replies after the first is that
    /// project.
    pub proof fn lemma_created_project_is_current(self, replies: Seq<ReplyView>)
        ensures
            match self.new_project_spec(replies) {
                StepView::Done(Ok(project)) => replies.len() >= 2 && self.project_spec(
                    replies.skip(1),
                ) == StepView::Done(Ok::<Option<Project>, ErrorView>(Some(project))),
                _ => true,
            },
    {
    }

    /// A project that was opened is the current project: where
    /// [`Application::open_project`] succeeds on `replies`, what
    /// [`Application::project`] makes of the replies after the first is that
    /// project.
    pub proof fn lemma_opened_project_is_current(
        self,
        path: Seq<char>,
        exists: bool,
        replies: Seq<ReplyView>,
    )
        ensures
            match self.open_project_spec(path, exists, replies) {
                StepView::Done(Ok(project)) => exists && replies.len() >= 2 && self.project_spec(
                    replies.skip(1),
                ) == StepView::Done(Ok::<Option<Project>, ErrorView>(Some(project))),
                _ => true,
            },
    {
    }

    /// While the application reports no project, none is found and none is
    /// made out of nothing: [`Application::project`] gives `None` for a
    /// reply that holds no live object, and neither
    /// [`Application::new_project`] nor [`Application::open_project`]
    /// succeeds where the reply to the fetch is such a reply.
    pub proof fn lemma_no_project_without_object(
        self,
        path: Seq<char>,
        exists: bool,
        replies: Seq<ReplyView>,
    )
        requires
            replies.len() >= 2,
            object_of(replies[1]) is Err,
        ensures
            self.project_spec(replies.skip(1)) == StepView::Done(
                Ok::<Option<Project>, ErrorView>(None),
            ),
            !(self.new_project_spec(replies) matches StepView::Done(Ok(_))),
            !(self.open_project_spec(path, exists, replies) matches StepView::Done(Ok(_))),
    {
    }

    /// Replies beyond those read are ignored: once an operation on the
    /// application is done, it stays done with the same result whatever
    /// replies follow.
    pub proof fn lemma_operations_settle(
        self,
        path: Seq<char>,
        exists: bool,
        visible: bool,
        replies: Seq<ReplyView>,
        more: Seq<ReplyView>,
    )
        ensures
            self.ready_spec(visible, replies) is Done ==> self.ready_spec(visible, replies + more)
                == self.ready_spec(visible, replies),
            self.quit_spec(replies) is Done ==> self.quit_spec(replies + more) == self.quit_spec(
                replies,
            ),
            self.version_spec(replies) is Done ==> self.version_spec(replies + more)
                == self.version_spec(replies),
            self.project_spec(replies) is Done ==> self.project_spec(replies + more)
                == self.project_spec(replies),
            self.new_project_spec(replies) is Done ==> self.new_project_spec(replies + more)
                == self.new_project_spec(replies),
            self.open_project_spec(path, exists, replies) is Done ==> self.open_project_spec(
                path,
                exists,
                replies + more,
            ) == self.open_project_spec(path, exists, replies),
            self.native_window_handle_spec(replies) is Done ==> self.native_window_handle_spec(
                replies + more,
            ) == self.native_window_handle_spec(replies),
            self.teardown_spec(replies) is Done ==> self.teardown_spec(replies + more)
                == self.teardown_spec(replies),
    {
        lemma_longer_transcript(replies, more, 0);
        if replies.len() >= 1 {
            lemma_longer_transcript(replies, more, 1);
            lemma_longer_transcript(replies.skip(1), more, 0);
        }
        if replies.len() >= 2 {
            lemma_longer_transcript(replies, more, 2);
            lemma_longer_transcript(replies.skip(2), more, 0);
        }
    }

    /// Ending a session never fails, whatever the application answers.
    pub proof fn lemma_teardown_never_fails(self, replies: Seq<ReplyView>)
        ensures
            !(self.teardown_spec(replies) matches StepView::Done(Err(_))),
    {
    }

    /// Ending a session takes three requests at most.
    pub proof fn lemma_teardown_ends(self, replies: Seq<ReplyView>)
        requires
            replies.len() >= 3,
        ensures
            self.teardown_spec(replies) == StepView::Done(Ok::<(), ErrorView>(())),
    {
    }

    /// Ending a session always gets as far as closing the application: where
    /// it is done after `replies`, the request before the last reply was the
    /// one to quit.
    pub proof fn lemma_teardown_quits(self, replies: Seq<ReplyView>)
        requires
            !self@.handle.is_null_spec(),
            self.teardown_spec(replies) is Done,
            !(self.teardown_spec(replies.drop_last()) is Done),
            replies.len() >= 1,
        ensures
            self.teardown_spec(replies.drop_last()) == StepView::<()>::Call(
                request(
                    self@.handle,
                    CallKind::Method,
                    "Quit"@,
                    Seq::empty(),
                ),
            ),
    {
        let shorter = replies.drop_last();
        assert(forall|i: int| 0 <= i < shorter.len() ==> shorter[i] == replies[i]);
        if shorter.len() >= 1 {
            assert(shorter.skip(1) =~= replies.skip(1).drop_last());
        }
        if shorter.len() >= 2 {
            assert(shorter.skip(2) =~= replies.skip(2).drop_last());
        }
    }

    /// Returns the application as a reader sees it: its name and its locale.
    pub fn to_string(&self) -> (text: String)
        ensures
            text@ == "Renga Application { locale: "@ + self@.locale + " }"@,
    {
        String::from_str("Renga Application { locale: ").concat(self.locale.as_str()).concat(" }")
    }

    /// Gives the application up for its guard, which is the host's to release.
    pub fn into_guard(self) -> (com: ComRuntime)
        ensures
            com == self.com,
    {
        self.com
    }
}

} // verus!
