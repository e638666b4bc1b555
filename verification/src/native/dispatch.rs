//! Object handles and the three call shapes of the member protocol.

use vstd::prelude::*;
use crate::error::{Error, ErrorView};
use crate::native::variant::{views, Variant, VariantView};

verus! {

/// The reserved argument id that marks the value argument of a property put.
pub const DISPID_PROPERTYPUT: i32 = -3;

/// The three call shapes of the member protocol.
#[derive(Debug, Clone, Copy, PartialEq, Eq, Structural)]
pub enum CallKind {
    PropertyGet,
    PropertyPut,
    Method,
}

/// One request to the foreign call convention, ready to be performed.
///
/// The member is named, not numbered: its id is resolved anew for every
/// request. `wire_args` is the argument list as the call convention takes it,
/// which is the caller's list in reverse order. `named_args` holds the ids of
/// the arguments that are passed by name, which belong to the first entries of
/// `wire_args`.
#[derive(Debug, Clone)]
pub struct Invocation {
    pub target: Dispatch,
    pub kind: CallKind,
    pub member: String,
    pub wire_args: Vec<Variant>,
    pub named_args: Vec<i32>,
}

/// The mathematical value of an [`Invocation`].
pub struct InvocationView {
    pub target: Dispatch,
    pub kind: CallKind,
    pub member: Seq<char>,
    pub wire_args: Seq<VariantView>,
    pub named_args: Seq<i32>,
}

impl View for Invocation {
    type V = InvocationView;

    open spec fn view(&self) -> InvocationView {
        InvocationView {
            target: self.target,
            kind: self.kind,
            member: self.member@,
            wire_args: views(self.wire_args@),
            named_args: self.named_args@,
        }
    }
}

impl InvocationView {
    /// The positional arguments in the order in which the callee reads them:
    /// the callee takes the last entry of the wire list as its first argument.
    pub open spec fn received_args(self) -> Seq<VariantView> {
        self.wire_args.reverse()
    }
}

/// The request that `target` issues for member `member` with the caller's
/// arguments `args`: the arguments go onto the wire in reverse order, and the
/// value of a property put is passed by name under [`DISPID_PROPERTYPUT`].
pub open spec fn request(
    target: Dispatch,
    kind: CallKind,
    member: Seq<char>,
    args: Seq<VariantView>,
) -> InvocationView {
    InvocationView {
        target,
        kind,
        member,
        wire_args: args.reverse(),
        named_args: if kind == CallKind::PropertyPut && args.len() > 0 {
            seq![DISPID_PROPERTYPUT]
        } else {
            Seq::empty()
        },
    }
}

/// Arguments arrive in the caller's order: the callee, which reads the wire
/// list from its end, sees the arguments of a request as the caller listed
/// them.
pub proof fn lemma_arguments_arrive_in_order(
    target: Dispatch,
    kind: CallKind,
    member: Seq<char>,
    args: Seq<VariantView>,
)
    ensures
        request(target, kind, member, args).received_args() == args,
        request(target, kind, member, args).wire_args.len() == args.len(),
        forall|i: int|
            0 <= i < args.len() ==> request(target, kind, member, args).wire_args[i]
                == args[args.len() - 1 - i],
{
    assert(args.reverse().reverse() =~= args);
}

/// Only the value of a property put is passed by name: a request carries
/// the reserved id exactly when it is a put with an argument.
pub proof fn lemma_named_argument_marks_put(
    target: Dispatch,
    kind: CallKind,
    member: Seq<char>,
    args: Seq<VariantView>,
)
    ensures
        request(target, kind, member, args).named_args.len() <= 1,
        request(target, kind, member, args).named_args.len() == 1 <==> kind
            == CallKind::PropertyPut && args.len() > 0,
        request(target, kind, member, args).named_args.len() == 1 ==> request(
            target,
            kind,
            member,
            args,
        ).named_args[0] == DISPID_PROPERTYPUT,
{
}

/// The message of the error that every call on a null handle gives.
pub open spec fn null_handle_message() -> Seq<char> {
    "Dispatch handle is null"@
}

/// An opaque reference to one foreign object.
///
/// A handle is either null or names a live object; it carries nothing else.
#[derive(Debug, Clone, Copy, PartialEq, Eq, Hash)]
pub struct Dispatch {
    raw: usize,
}

impl Dispatch {
    /// Wraps the raw reference `raw`; zero is the null reference.
    pub fn from_raw(raw: usize) -> (handle: Dispatch)
        ensures
            handle.raw_spec() == raw,
    {
        Dispatch { raw }
    }

    /// The null handle.
    pub fn null() -> (handle: Dispatch)
        ensures
            handle.is_null_spec(),
            handle.raw_spec() == 0,
    {
        Dispatch { raw: 0 }
    }

    /// The raw reference that this handle wraps.
    pub closed spec fn raw_spec(self) -> usize {
        self.raw
    }

    /// Whether the handle refers to no object.
    pub open spec fn is_null_spec(self) -> bool {
        self.raw_spec() == 0
    }

    /// The raw reference that this handle wraps.
    pub fn as_raw(&self) -> (raw: usize)
        ensures
            raw == self.raw_spec(),
    {
        self.raw
    }

    /// The raw reference that this handle wraps, to be replaced in place.
    pub fn as_raw_mut(&mut self) -> (raw: &mut usize)
        ensures
            *raw == old(self).raw_spec(),
            final(self).raw_spec() == *final(raw),
    {
        &mut self.raw
    }

    /// Gives up the handle for the raw reference that it wraps.
    pub fn into_raw(self) -> (raw: usize)
        ensures
            raw == self.raw_spec(),
    {
        self.raw
    }

    /// Whether the handle refers to no object.
    pub fn is_null(&self) -> (null: bool)
        ensures
            null == self.is_null_spec(),
    {
        self.raw == 0
    }

    /// The request that reads property `name`.
    pub fn get(&self, name: &str) -> (result: Result<Invocation, Error>)
        ensures
            match result {
                Ok(invocation) => !self.is_null_spec() && invocation@ == request(
                    *self,
                    CallKind::PropertyGet,
                    name@,
                    Seq::empty(),
                ),
                Err(e) => self.is_null_spec() && e@ == ErrorView::Internal(null_handle_message()),
            },
    {
        self.invoke(CallKind::PropertyGet, name, Vec::new())
    }

    /// The request that writes `value` to property `name`.
    pub fn set(&self, name: &str, value: Variant) -> (result: Result<Invocation, Error>)
        ensures
            match result {
                Ok(invocation) => !self.is_null_spec() && invocation@ == request(
                    *self,
                    CallKind::PropertyPut,
                    name@,
                    seq![value@],
                ),
                Err(e) => self.is_null_spec() && e@ == ErrorView::Internal(null_handle_message()),
            },
    {
        let mut args: Vec<Variant> = Vec::new();
        args.push(value);
        proof {
            assert(views(args@) =~= seq![value@]);
        }
        self.invoke(CallKind::PropertyPut, name, args)
    }

    /// The request that calls method `name` with `args`; `None` stands for no
    /// arguments.
    pub fn call(&self, name: &str, args: Option<Vec<Variant>>) -> (result: Result<
        Invocation,
        Error,
    >)
        ensures
            match result {
                Ok(invocation) => !self.is_null_spec() && invocation@ == request(
                    *self,
                    CallKind::Method,
                    name@,
                    match args {
                        Some(list) => views(list@),
                        None => Seq::empty(),
                    },
                ),
                Err(e) => self.is_null_spec() && e@ == ErrorView::Internal(null_handle_message()),
            },
    {
        match args {
            Some(list) => self.invoke(CallKind::Method, name, list),
            None => self.invoke(CallKind::Method, name, Vec::new()),
        }
    }

    /// Builds the request of kind `kind` for member `name` with `args`.
    ///
    /// A null handle gives an internal error, and no request. Otherwise the
    /// request carries the arguments in reverse order, and marks the value of
    /// a property put as passed by name.
    pub fn invoke(&self, kind: CallKind, name: &str, args: Vec<Variant>) -> (result: Result<
        Invocation,
        Error,
    >)
        ensures
            match result {
                Ok(invocation) => !self.is_null_spec() && invocation@ == request(
                    *self,
                    kind,
                    name@,
                    views(args@),
                ),
                Err(e) => self.is_null_spec() && e@ == ErrorView::Internal(null_handle_message()),
            },
    {
        if self.is_null() {
            return Err(Error::Internal("Dispatch handle is null".to_owned()));
        }
        let ghost given = args@;
        let mut rest = args;
        let mut wire_args: Vec<Variant> = Vec::new();
        let mut named_args: Vec<i32> = Vec::new();
        if rest.len() > 0 {
            match kind {
                CallKind::PropertyPut => {
                    named_args.push(DISPID_PROPERTYPUT);
                },
                _ => {},
            }
        }
        while rest.len() > 0
            invariant
                rest@.len() <= given.len(),
                rest@ == given.subrange(0, rest@.len() as int),
                wire_args@.len() == given.len() - rest@.len(),
                forall|i: int|
                    0 <= i < wire_args@.len() ==> wire_args@[i] == given[given.len() - 1 - i],
            decreases rest@.len(),
        {
            let last = rest.pop();
            match last {
                Some(value) => {
                    wire_args.push(value);
                },
                None => {},
            }
        }
        proof {
            assert(views(wire_args@) =~= views(given).reverse());
            assert(named_args@ =~= request(*self, kind, name@, views(given)).named_args);
        }
        Ok(Invocation { target: *self, kind, member: name.to_owned(), wire_args, named_args })
    }
}

} // verus!
