//! Snapshots of the identity of foreign objects, and collections of them.

use vstd::prelude::*;
use vstd::slice::slice_subrange;
use crate::api::uuid::{identifier, lemma_braces_do_not_matter, UUID};
use crate::error::{Error, ErrorView};
use crate::native::dispatch::{request, CallKind, Dispatch};
use crate::native::protocol::{
    ask,
    asked,
    int_of,
    lemma_longer_transcript,
    object_of,
    read_int,
    read_object,
    read_string,
    reply_view,
    string_of,
    transcript,
    Reply,
    ReplyView,
    Step,
    StepView,
};
use crate::native::variant::{Variant, VariantView};

verus! {

/// The identity of one foreign object, captured when the snapshot was made.
#[derive(Debug, Clone)]
pub struct Entity {
    pub id: i32,
    pub name: String,
    pub type_id: UUID,
    pub unique_id: UUID,
    /// The object that the snapshot was taken of.
    pub handle: Dispatch,
}

/// The mathematical value of an [`Entity`].
pub struct EntityView {
    pub id: i32,
    pub name: Seq<char>,
    pub type_id: UUID,
    pub unique_id: UUID,
    pub handle: Dispatch,
}

impl View for Entity {
    type V = EntityView;

    open spec fn view(&self) -> EntityView {
        EntityView {
            id: self.id,
            name: self.name@,
            type_id: self.type_id,
            unique_id: self.unique_id,
            handle: self.handle,
        }
    }
}

impl DeepView for Entity {
    type V = EntityView;

    open spec fn deep_view(&self) -> EntityView {
        self@
    }
}

/// What a reply yields where the textual form of an identifier is expected.
pub open spec fn identifier_of(reply: ReplyView) -> Result<UUID, ErrorView> {
    match string_of(reply) {
        Err(e) => Err(e),
        Ok(text) => identifier(text),
    }
}

/// Reads a reply where the textual form of an identifier is expected.
fn read_identifier(reply: &Reply) -> (result: Result<UUID, Error>)
    ensures
        match result {
            Ok(id) => identifier_of(reply_view(*reply)) == Ok::<
                UUID,
                ErrorView,
            >(id),
            Err(e) => identifier_of(reply_view(*reply)) == Err::<
                UUID,
                ErrorView,
            >(e@),
        },
{
    match read_string(reply) {
        Ok(text) => UUID::from_braced_str(text.as_str()),
        Err(e) => Err(e),
    }
}

impl Default for Entity {
    fn default() -> (entity: Entity)
        ensures
            entity@ == (EntityView {
                id: 0,
                name: Seq::empty(),
                type_id: UUID { data1: 0, data2: 0, data3: 0, data4: 0 },
                unique_id: UUID { data1: 0, data2: 0, data3: 0, data4: 0 },
                handle: entity.handle,
            }),
            entity.handle.is_null_spec(),
    {
        Entity {
            id: 0,
            name: String::new(),
            type_id: UUID::nil(),
            unique_id: UUID::nil(),
            handle: Dispatch::null(),
        }
    }
}

impl EntityView {
    /// The snapshot as a reader sees it: its name, or a placeholder where it
    /// has none.
    pub open spec fn display(self) -> Seq<char> {
        "<entity: "@ + (if self.name.len() == 0 {
            "<unknown entity>"@
        } else {
            self.name
        }) + ">"@
    }
}

impl Entity {
    /// Returns the snapshot as a reader sees it.
    pub fn to_string(&self) -> (text: String)
        ensures
            text@ == self@.display(),
    {
        let shown = if self.name.as_str().unicode_len() == 0 {
            "<unknown entity>"
        } else {
            self.name.as_str()
        };
        String::from_str("<entity: ").concat(shown).concat(">")
    }

    /// The number of replies that a snapshot reads.
    pub open spec fn reads() -> nat {
        4
    }

    /// Where the snapshot of the object behind `handle` stands after `replies`.
    ///
    /// A null handle fails at once. Otherwise four properties are read in
    /// turn, the integer id, the name, and the textual forms of the type
    /// identifier and of the unique identifier; the first reply that is
    /// missing is asked for, and the first that cannot be read ends the
    /// operation with its error.
    pub open spec fn new_spec(handle: Dispatch, replies: Seq<ReplyView>) -> StepView<EntityView> {
        if handle.is_null_spec() {
            StepView::Done(Err(ErrorView::Internal("Entity handle is null"@)))
        } else if replies.len() < 1 {
            StepView::Call(request(handle, CallKind::PropertyGet, "Id"@, Seq::empty()))
        } else if int_of(replies[0]) is Err {
            StepView::Done(Err(int_of(replies[0])->Err_0))
        } else if replies.len() < 2 {
            StepView::Call(request(handle, CallKind::PropertyGet, "Name"@, Seq::empty()))
        } else if string_of(replies[1]) is Err {
            StepView::Done(Err(string_of(replies[1])->Err_0))
        } else if replies.len() < 3 {
            StepView::Call(request(handle, CallKind::PropertyGet, "TypeIdS"@, Seq::empty()))
        } else if identifier_of(replies[2]) is Err {
            StepView::Done(Err(identifier_of(replies[2])->Err_0))
        } else if replies.len() < 4 {
            StepView::Call(request(handle, CallKind::PropertyGet, "UniqueIdS"@, Seq::empty()))
        } else if identifier_of(replies[3]) is Err {
            StepView::Done(Err(identifier_of(replies[3])->Err_0))
        } else {
            StepView::Done(
                Ok(
                    EntityView {
                        id: int_of(replies[0])->Ok_0,
                        name: string_of(replies[1])->Ok_0,
                        type_id: identifier_of(replies[2])->Ok_0,
                        unique_id: identifier_of(replies[3])->Ok_0,
                        handle,
                    },
                ),
            )
        }
    }

    /// A snapshot is made exactly of four replies that can be read: it
    /// succeeds if and only if the handle is not null and the four
    /// properties were read, and then it holds what they gave.
    pub proof fn lemma_snapshot_succeeds_exactly(handle: Dispatch, replies: Seq<ReplyView>)
        ensures
            Self::new_spec(handle, replies) matches StepView::Done(Ok(_)) <==> {
                &&& !handle.is_null_spec()
                &&& replies.len() >= 4
                &&& int_of(replies[0]) is Ok
                &&& string_of(replies[1]) is Ok
                &&& identifier_of(replies[2]) is Ok
                &&& identifier_of(replies[3]) is Ok
            },
            Self::new_spec(handle, replies) matches StepView::Done(Ok(entity)) ==> {
                &&& entity.id == int_of(replies[0])->Ok_0
                &&& entity.name == string_of(replies[1])->Ok_0
                &&& entity.type_id == identifier_of(replies[2])->Ok_0
                &&& entity.unique_id == identifier_of(replies[3])->Ok_0
                &&& entity.handle == handle
            },
            replies.len() >= 4 ==> Self::new_spec(handle, replies) is Done,
    {
    }

    /// Braces around an identifier do not matter to a snapshot: a reply
    /// that holds an identifier in braces is read as the reply that holds it
    /// without them.
    pub proof fn lemma_snapshot_ignores_braces(text: Seq<char>)
        ensures
            identifier_of(Ok(VariantView::Str(seq!['{'] + text + seq!['}']))) == identifier_of(
                Ok(VariantView::Str(text)),
            ),
    {
        lemma_braces_do_not_matter(text);
    }

    /// Replies beyond those read are ignored: once a snapshot is done, it
    /// stays done with the same result whatever replies follow.
    pub proof fn lemma_snapshot_settles(
        handle: Dispatch,
        replies: Seq<ReplyView>,
        more: Seq<ReplyView>,
    )
        requires
            Self::new_spec(handle, replies) is Done,
        ensures
            Self::new_spec(handle, replies + more) == Self::new_spec(handle, replies),
    {
        lemma_longer_transcript(replies, more, 0);
    }

    /// Takes a snapshot of the object behind `handle`, reading `replies` as
    /// the answers to the requests made so far.
    pub fn new(handle: Dispatch, replies: &[Reply]) -> (step: Step<Entity>)
        ensures
            step@ == Self::new_spec(handle, transcript(replies@)),
    {
        if handle.is_null() {
            return Step::Done(Err(Error::Internal("Entity handle is null".to_owned())));
        }
        if replies.len() < 1 {
            return ask(handle.get("Id"));
        }
        let id = match read_int(&replies[0]) {
            Ok(id) => id,
            Err(e) => {
                return Step::Done(Err(e));
            },
        };
        if replies.len() < 2 {
            return ask(handle.get("Name"));
        }
        let name = match read_string(&replies[1]) {
            Ok(name) => name,
            Err(e) => {
                return Step::Done(Err(e));
            },
        };
        if replies.len() < 3 {
            return ask(handle.get("TypeIdS"));
        }
        let type_id = match read_identifier(&replies[2]) {
            Ok(type_id) => type_id,
            Err(e) => {
                return Step::Done(Err(e));
            },
        };
        if replies.len() < 4 {
            return ask(handle.get("UniqueIdS"));
        }
        let unique_id = match read_identifier(&replies[3]) {
            Ok(unique_id) => unique_id,
            Err(e) => {
                return Step::Done(Err(e));
            },
        };
        Step::Done(Ok(Entity { id, name, type_id, unique_id, handle }))
    }
}

/// A handle over an indexable sequence of foreign objects.
#[derive(Debug, Clone, Copy, PartialEq, Eq)]
pub struct EntityCollection {
    pub handle: Dispatch,
}

impl DeepView for EntityCollection {
    type V = EntityCollection;

    open spec fn deep_view(&self) -> EntityCollection {
        *self
    }
}

/// The views of a sequence of snapshots, in the same order.
pub open spec fn entity_views(entities: Seq<Entity>) -> Seq<EntityView> {
    Seq::new(entities.len(), |i: int| entities[i]@)
}

impl EntityCollection {
    /// The number of replies that reading one item takes: one for the item
    /// itself, and those of its snapshot.
    pub open spec fn reads_per_item() -> nat {
        1 + Entity::reads()
    }

    /// Wraps `handle`; fails with an internal error if it is null.
    pub fn new(handle: Dispatch) -> (result: Result<EntityCollection, Error>)
        ensures
            match result {
                Ok(collection) => !handle.is_null_spec() && collection.handle == handle,
                Err(e) => handle.is_null_spec() && e@ == ErrorView::Internal(
                    "EntityCollection handle is null"@,
                ),
            },
    {
        if handle.is_null() {
            return Err(Error::Internal("EntityCollection handle is null".to_owned()));
        }
        Ok(EntityCollection { handle })
    }

    /// Where reading the item at `index` stands after `replies`: the item is
    /// asked for by its index as an `int`, and a snapshot of the object that
    /// comes back is taken from the replies that follow.
    pub open spec fn get_spec(self, index: usize, replies: Seq<ReplyView>) -> StepView<
        EntityView,
    > {
        if self.handle.is_null_spec() || replies.len() < 1 {
            asked(
                self.handle,
                CallKind::Method,
                "GetByIndex"@,
                seq![VariantView::I32(index as i32)],
            )
        } else if object_of(replies[0]) is Err {
            StepView::Done(Err(object_of(replies[0])->Err_0))
        } else {
            Entity::new_spec(object_of(replies[0])->Ok_0, replies.skip(1))
        }
    }

    /// Reads the item at `index`.
    pub fn get(&self, index: usize, replies: &[Reply]) -> (step: Step<Entity>)
        ensures
            step@ == self.get_spec(index, transcript(replies@)),
    {
        if self.handle.is_null() || replies.len() < 1 {
            let mut args: Vec<Variant> = Vec::new();
            args.push(Variant::I32(index as i32));
            proof {
                assert(crate::native::variant::views(args@) =~= seq![
                    VariantView::I32(index as i32),
                ]);
            }
            return ask(self.handle.call("GetByIndex", Some(args)));
        }
        let item = match read_object(&replies[0]) {
            Ok(item) => item,
            Err(e) => {
                return Step::Done(Err(e));
            },
        };
        let rest = slice_subrange(replies, 1, replies.len());
        proof {
            assert(transcript(rest@) =~= transcript(replies@).skip(1));
        }
        Entity::new(item, rest)
    }

    /// Where reading the length stands after `replies`: the count is read as
    /// an `int` and converted to `usize` as a cast does.
    pub open spec fn len_spec(self, replies: Seq<ReplyView>) -> StepView<usize> {
        if self.handle.is_null_spec() || replies.len() < 1 {
            asked(self.handle, CallKind::PropertyGet, "Count"@, Seq::empty())
        } else {
            match int_of(replies[0]) {
                Err(e) => StepView::Done(Err(e)),
                Ok(count) => StepView::Done(Ok(count as usize)),
            }
        }
    }

    /// Reads the number of items.
    pub fn len(&self, replies: &[Reply]) -> (step: Step<usize>)
        ensures
            step@ == self.len_spec(transcript(replies@)),
    {
        if self.handle.is_null() || replies.len() < 1 {
            return ask(self.handle.get("Count"));
        }
        match read_int(&replies[0]) {
            Ok(count) => Step::Done(Ok(count as usize)),
            Err(e) => Step::Done(Err(e)),
        }
    }

    /// Where reading the items from `index` up to `len` stands after
    /// `replies`, with the snapshots `taken` so far: the items are read in
    /// the order of their indices, each from the replies that follow those of
    /// the item before it, and the first failure ends the operation.
    pub open spec fn items_spec(
        self,
        len: usize,
        index: usize,
        replies: Seq<ReplyView>,
        taken: Seq<EntityView>,
    ) -> StepView<Seq<EntityView>>
        decreases len - index,
    {
        if index >= len {
            StepView::Done(Ok(taken))
        } else {
            match self.get_spec(index, replies) {
                StepView::Call(invocation) => StepView::Call(invocation),
                StepView::Done(Err(e)) => StepView::Done(Err(e)),
                StepView::Done(Ok(entity)) => self.items_spec(
                    len,
                    (index + 1) as usize,
                    replies.skip(Self::reads_per_item() as int),
                    taken.push(entity),
                ),
            }
        }
    }

    /// Where reading the item at `index` stands within the replies to
    /// [`EntityCollection::into_vec`]: the item is read from the replies
    /// that follow the length and the items before it.
    pub open spec fn item_spec(self, index: int, replies: Seq<ReplyView>) -> StepView<EntityView> {
        self.get_spec(index as usize, replies.skip(1 + Self::reads_per_item() * index))
    }

    /// What [`EntityCollection::items_spec`] hands out on success: the
    /// snapshots taken before, then those of the items from `index` up to
    /// `len`, each read from its own replies.
    proof fn lemma_items(
        self,
        len: usize,
        index: usize,
        replies: Seq<ReplyView>,
        taken: Seq<EntityView>,
        items: Seq<EntityView>,
    )
        requires
            index <= len,
            taken.len() == index,
            1 + 5 * index <= replies.len(),
            self.items_spec(len, index, replies.skip(1 + 5 * index), taken) == StepView::Done(
                Ok::<Seq<EntityView>, ErrorView>(items),
            ),
        ensures
            items.len() == len,
            items.subrange(0, index as int) == taken,
            replies.len() >= 1 + 5 * len,
            forall|k: int|
                index <= k < len ==> #[trigger] self.item_spec(k, replies) == StepView::Done(
                    Ok::<EntityView, ErrorView>(items[k]),
                ),
        decreases len - index,
    {
        if index < len {
            let rest = replies.skip(1 + 5 * index);
            let entity = self.get_spec(index, rest)->Done_0->Ok_0;
            assert(rest.skip(Self::reads_per_item() as int) =~= replies.skip(
                1 + 5 * (index + 1),
            ));
            self.lemma_items(len, (index + 1) as usize, replies, taken.push(entity), items);
            assert(items.subrange(0, index + 1)[index as int] == entity);
            assert(items.subrange(0, index as int) =~= taken) by {
                assert forall|i: int| 0 <= i < index implies items.subrange(0, index as int)[i]
                    == taken[i] by {
                    assert(items.subrange(0, index + 1)[i] == taken.push(entity)[i]);
                }
            }
            assert(self.item_spec(index as int, replies) == StepView::Done(
                Ok::<EntityView, ErrorView>(items[index as int]),
            ));
        } else {
            assert(items.subrange(0, index as int) =~= taken);
        }
    }

    /// A collection is resolved item by item: where
    /// [`EntityCollection::into_vec`] succeeds with `items`, there are as
    /// many of them as the length that was read, and each is the snapshot
    /// that [`EntityCollection::get`] makes of its own replies, in the order
    /// of the indices.
    pub proof fn lemma_into_vec_reads_every_item(
        self,
        replies: Seq<ReplyView>,
        items: Seq<EntityView>,
    )
        requires
            self.into_vec_spec(replies) == StepView::Done(Ok::<Seq<EntityView>, ErrorView>(items)),
        ensures
            self.len_spec(replies) == StepView::Done(Ok::<usize, ErrorView>(items.len() as usize)),
            replies.len() >= 1 + 5 * items.len(),
            forall|k: int|
                0 <= k < items.len() ==> #[trigger] self.item_spec(k, replies) == StepView::Done(
                    Ok::<EntityView, ErrorView>(items[k]),
                ),
    {
        let len = self.len_spec(replies)->Done_0->Ok_0;
        self.lemma_items(len, 0, replies, Seq::empty(), items);
    }

    /// Replies beyond those read are ignored: once an item is read, the
    /// result stays the same whatever replies follow.
    pub proof fn lemma_get_settles(
        self,
        index: usize,
        replies: Seq<ReplyView>,
        more: Seq<ReplyView>,
    )
        requires
            self.get_spec(index, replies) is Done,
        ensures
            self.get_spec(index, replies + more) == self.get_spec(index, replies),
    {
        if replies.len() >= 1 {
            lemma_longer_transcript(replies, more, 1);
            if !self.handle.is_null_spec() && object_of(replies[0]) is Ok {
                Entity::lemma_snapshot_settles(object_of(replies[0])->Ok_0, replies.skip(1), more);
            }
        }
    }

    /// Replies beyond those read are ignored while the items are read.
    proof fn lemma_items_settle(
        self,
        len: usize,
        index: usize,
        replies: Seq<ReplyView>,
        more: Seq<ReplyView>,
        taken: Seq<EntityView>,
    )
        requires
            self.items_spec(len, index, replies, taken) is Done,
        ensures
            self.items_spec(len, index, replies + more, taken) == self.items_spec(
                len,
                index,
                replies,
                taken,
            ),
        decreases len - index,
    {
        if index < len {
            self.lemma_get_settles(index, replies, more);
            match self.get_spec(index, replies) {
                StepView::Done(Ok(entity)) => {
                    lemma_longer_transcript(replies, more, Self::reads_per_item() as int);
                    self.lemma_items_settle(
                        len,
                        (index + 1) as usize,
                        replies.skip(Self::reads_per_item() as int),
                        more,
                        taken.push(entity),
                    );
                },
                _ => {},
            }
        }
    }

    /// Replies beyond those read are ignored: once the collection is
    /// resolved, the result stays the same whatever replies follow.
    pub proof fn lemma_into_vec_settles(self, replies: Seq<ReplyView>, more: Seq<ReplyView>)
        requires
            self.into_vec_spec(replies) is Done,
        ensures
            self.into_vec_spec(replies + more) == self.into_vec_spec(replies),
    {
        if replies.len() >= 1 {
            lemma_longer_transcript(replies, more, 1);
            match self.len_spec(replies) {
                StepView::Done(Ok(len)) => {
                    self.lemma_items_settle(len, 0, replies.skip(1), more, Seq::empty());
                },
                _ => {},
            }
        }
    }

    /// Where materializing the collection stands after `replies`: the length
    /// is read once, then every item in the order of the indices.
    pub open spec fn into_vec_spec(self, replies: Seq<ReplyView>) -> StepView<Seq<EntityView>> {
        match self.len_spec(replies) {
            StepView::Call(invocation) => StepView::Call(invocation),
            StepView::Done(Err(e)) => StepView::Done(Err(e)),
            StepView::Done(Ok(len)) => self.items_spec(len, 0, replies.skip(1), Seq::empty()),
        }
    }

    /// Resolves the collection into an owned sequence of snapshots.
    pub fn into_vec(self, replies: &[Reply]) -> (step: Step<Vec<Entity>>)
        ensures
            step@ == self.into_vec_spec(transcript(replies@)),
    {
        let len = match self.len(replies) {
            Step::Call(invocation) => {
                return Step::Call(invocation);
            },
            Step::Done(Err(e)) => {
                return Step::Done(Err(e));
            },
            Step::Done(Ok(len)) => len,
        };
        let mut entities: Vec<Entity> = Vec::new();
        let mut index: usize = 0;
        let mut position: usize = 1;
        proof {
            assert(entities.deep_view() =~= Seq::<EntityView>::empty());
        }
        while index < len
            invariant
                1 <= position <= replies@.len(),
                index <= len,
                self.into_vec_spec(transcript(replies@)) == self.items_spec(
                    len,
                    index,
                    transcript(replies@).skip(position as int),
                    entities.deep_view(),
                ),
            decreases len - index,
        {
            let rest = slice_subrange(replies, position, replies.len());
            proof {
                assert(transcript(rest@) =~= transcript(replies@).skip(position as int));
            }
            match self.get(index, rest) {
                Step::Call(invocation) => {
                    return Step::Call(invocation);
                },
                Step::Done(Err(e)) => {
                    return Step::Done(Err(e));
                },
                Step::Done(Ok(entity)) => {
                    let ghost before = entities.deep_view();
                    entities.push(entity);
                    proof {
                        assert(entities.deep_view() =~= before.push(entity@));
                        assert(transcript(replies@).skip(position as int).skip(
                            Self::reads_per_item() as int,
                        ) =~= transcript(replies@).skip(position + 5));
                    }
                    index = index + 1;
                    position = position + 5;
                },
            }
        }
        Step::Done(Ok(entities))
    }
}

} // verus!
