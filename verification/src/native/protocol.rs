//! The exchange between an operation and the host that performs its requests.

use vstd::prelude::*;
use crate::error::{Error, ErrorView};
use crate::native::dispatch::{
    null_handle_message,
    request,
    CallKind,
    Dispatch,
    Invocation,
    InvocationView,
};
use crate::native::variant::{Variant, VariantView};

verus! {

/// What the foreign side answered to one request: a value, or the error with
/// which the call layer rejected the request.
pub type Reply = Result<Variant, Error>;

/// The mathematical value of a [`Reply`].
pub type ReplyView = Result<VariantView, ErrorView>;

/// Where an operation stands after the replies that it was given: it needs
/// the reply to one more request, or it has finished.
#[derive(Debug)]
pub enum Step<T> {
    /// The request to perform next; its reply is to be appended to the replies.
    Call(Invocation),
    /// The result of the operation. Replies beyond those read are ignored.
    Done(Result<T, Error>),
}

/// The mathematical value of a [`Step`].
pub enum StepView<V> {
    Call(InvocationView),
    Done(Result<V, ErrorView>),
}

impl<T: DeepView> View for Step<T> {
    type V = StepView<T::V>;

    open spec fn view(&self) -> StepView<T::V> {
        match self {
            Step::Call(invocation) => StepView::Call(invocation@),
            Step::Done(Ok(value)) => StepView::Done(Ok(value.deep_view())),
            Step::Done(Err(e)) => StepView::Done(Err(e@)),
        }
    }
}

/// The view of one reply.
pub open spec fn reply_view(reply: Reply) -> ReplyView {
    match reply {
        Ok(value) => Ok(value@),
        Err(e) => Err(e@),
    }
}

/// The views of the replies received so far, in the order of their requests.
pub open spec fn transcript(replies: Seq<Reply>) -> Seq<ReplyView> {
    replies.map_values(|reply: Reply| reply_view(reply))
}

/// What a reply yields where an `int` is expected.
pub open spec fn int_of(reply: ReplyView) -> Result<i32, ErrorView> {
    match reply {
        Err(e) => Err(e),
        Ok(value) => match value.integer_within(-0x8000_0000, 0x7fff_ffff) {
            Ok(number) => Ok(number as i32),
            Err(e) => Err(e),
        },
    }
}

/// What a reply yields where a boolean is expected.
pub open spec fn bool_of(reply: ReplyView) -> Result<bool, ErrorView> {
    match reply {
        Err(e) => Err(e),
        Ok(value) => value.boolean(),
    }
}

/// What a reply yields where a string is expected.
pub open spec fn string_of(reply: ReplyView) -> Result<Seq<char>, ErrorView> {
    match reply {
        Err(e) => Err(e),
        Ok(value) => value.string(),
    }
}

/// What a reply yields where an object is expected.
pub open spec fn object_of(reply: ReplyView) -> Result<Dispatch, ErrorView> {
    match reply {
        Err(e) => Err(e),
        Ok(value) => value.object(),
    }
}

/// Reads a reply where an `int` is expected.
pub fn read_int(reply: &Reply) -> (result: Result<i32, Error>)
    ensures
        match result {
            Ok(value) => int_of(reply_view(*reply)) == Ok::<i32, ErrorView>(value),
            Err(e) => int_of(reply_view(*reply)) == Err::<i32, ErrorView>(e@),
        },
{
    match reply {
        Ok(value) => value.as_int(),
        Err(e) => Err(e.duplicate()),
    }
}

/// Reads a reply where a boolean is expected.
pub fn read_bool(reply: &Reply) -> (result: Result<bool, Error>)
    ensures
        match result {
            Ok(value) => bool_of(reply_view(*reply)) == Ok::<bool, ErrorView>(value),
            Err(e) => bool_of(reply_view(*reply)) == Err::<bool, ErrorView>(e@),
        },
{
    match reply {
        Ok(value) => value.as_bool(),
        Err(e) => Err(e.duplicate()),
    }
}

/// Reads a reply where a string is expected.
pub fn read_string(reply: &Reply) -> (result: Result<String, Error>)
    ensures
        match result {
            Ok(text) => string_of(reply_view(*reply)) == Ok::<Seq<char>, ErrorView>(text@),
            Err(e) => string_of(reply_view(*reply)) == Err::<Seq<char>, ErrorView>(e@),
        },
{
    match reply {
        Ok(value) => value.into_string(),
        Err(e) => Err(e.duplicate()),
    }
}

/// Reads a reply where an object is expected.
pub fn read_object(reply: &Reply) -> (result: Result<Dispatch, Error>)
    ensures
        match result {
            Ok(handle) => object_of(reply_view(*reply)) == Ok::<Dispatch, ErrorView>(handle),
            Err(e) => object_of(reply_view(*reply)) == Err::<Dispatch, ErrorView>(e@),
        },
{
    match reply {
        Ok(value) => value.into_dispatch(),
        Err(e) => Err(e.duplicate()),
    }
}

/// Replies that follow do not change those that were there: a longer
/// transcript starts with the shorter one, and what is left of it behind a
/// position of the shorter one is what was left there, followed by the rest.
pub proof fn lemma_longer_transcript(replies: Seq<ReplyView>, more: Seq<ReplyView>, position: int)
    requires
        0 <= position <= replies.len(),
    ensures
        (replies + more).len() == replies.len() + more.len(),
        (replies + more).skip(position) == replies.skip(position) + more,
        replies.len() >= 1 ==> (replies + more)[0] == replies[0],
        replies.len() >= 2 ==> (replies + more)[1] == replies[1],
        replies.len() >= 3 ==> (replies + more)[2] == replies[2],
        replies.len() >= 4 ==> (replies + more)[3] == replies[3],
{
    assert((replies + more).skip(position) =~= replies.skip(position) + more);
}

/// What a reply yields where only the success of the call matters.
pub open spec fn unit_of(reply: ReplyView) -> Result<(), ErrorView> {
    match reply {
        Err(e) => Err(e),
        Ok(_) => Ok(()),
    }
}

/// Reads a reply where only the success of the call matters.
pub fn read_unit(reply: &Reply) -> (result: Result<(), Error>)
    ensures
        match result {
            Ok(_) => unit_of(reply_view(*reply)) == Ok::<(), ErrorView>(()),
            Err(e) => unit_of(reply_view(*reply)) == Err::<(), ErrorView>(e@),
        },
{
    match reply {
        Ok(_) => Ok(()),
        Err(e) => Err(e.duplicate()),
    }
}

/// The step of an operation that wants member `member` of `target` called:
/// the request, or an internal error at once if `target` is null.
pub open spec fn asked<V>(
    target: Dispatch,
    kind: CallKind,
    member: Seq<char>,
    args: Seq<VariantView>,
) -> StepView<V> {
    if target.is_null_spec() {
        StepView::Done(Err(ErrorView::Internal(null_handle_message())))
    } else {
        StepView::Call(request(target, kind, member, args))
    }
}

/// The step that asks for `request` to be performed, or that ends the
/// operation with the error that stood in the way of building it.
pub fn ask<T: DeepView>(request: Result<Invocation, Error>) -> (step: Step<T>)
    ensures
        step@ == match request {
            Ok(invocation) => StepView::<T::V>::Call(invocation@),
            Err(e) => StepView::<T::V>::Done(Err(e@)),
        },
{
    match request {
        Ok(invocation) => Step::Call(invocation),
        Err(e) => Step::Done(Err(e)),
    }
}

} // verus!
