//! The storage engine's rules: which names are objects, what each operation
//! does to the set of stored objects, and how the outcome of the underlying
//! medium becomes one of the three storage errors.

use vstd::prelude::*;
use vstd::string::*;
use crate::errors::StorageErrors;
use crate::names::{check_filename, is_object_name};

verus! {

/// The stored objects: each filename with its content.
pub type Objects = Map<Seq<char>, Seq<u8>>;

/// The result of storing `content` under `name`: refused for a name that is
/// no object name and for one that is taken.
pub open spec fn store_result(objects: Objects, name: Seq<char>) -> Result<(), StorageErrors> {
    if !is_object_name(name) {
        Err(StorageErrors::UnknownError)
    } else if objects.contains_key(name) {
        Err(StorageErrors::AlreadyExists)
    } else {
        Ok(())
    }
}

/// The objects after storing `content` under `name`: one more if the store
/// succeeds, the same if it is refused.
pub open spec fn objects_after_store(objects: Objects, name: Seq<char>, content: Seq<u8>) -> Objects {
    if store_result(objects, name) is Ok {
        objects.insert(name, content)
    } else {
        objects
    }
}

/// The result of reading `name`: its content, or `NotFound` where no such
/// object is stored.
pub open spec fn get_result(objects: Objects, name: Seq<char>) -> Result<Seq<u8>, StorageErrors> {
    if is_object_name(name) && objects.contains_key(name) {
        Ok(objects[name])
    } else {
        Err(StorageErrors::NotFound)
    }
}

/// The result of deleting `name`: `NotFound` where no such object is stored.
pub open spec fn delete_result(objects: Objects, name: Seq<char>) -> Result<(), StorageErrors> {
    if is_object_name(name) && objects.contains_key(name) {
        Ok(())
    } else {
        Err(StorageErrors::NotFound)
    }
}

/// The objects after deleting `name`: one fewer if the delete succeeds, the
/// same if it is refused.
pub open spec fn objects_after_delete(objects: Objects, name: Seq<char>) -> Objects {
    if delete_result(objects, name) is Ok {
        objects.remove(name)
    } else {
        objects
    }
}

/// What a store may do. It does what the rules say; or, where the medium
/// is not reliable and the name is an object name, it may fail with
/// `UnknownError` because the medium failed, and then it changes nothing.
pub open spec fn store_permits(
    reliable: bool,
    before: Objects,
    name: Seq<char>,
    content: Seq<u8>,
    r: Result<(), StorageErrors>,
    after: Objects,
) -> bool {
    ||| r == store_result(before, name) && after == objects_after_store(before, name, content)
    ||| !reliable && is_object_name(name) && r == Err::<(), StorageErrors>(
        StorageErrors::UnknownError,
    ) && after == before
}

/// What a read may return. It returns what the rules say; or, where the
/// medium is not reliable and the name is an object name, it may return
/// `UnknownError` because the medium failed. A name that is no object name
/// is `NotFound` whatever the medium does: the medium is not asked.
pub open spec fn get_permits(
    reliable: bool,
    objects: Objects,
    name: Seq<char>,
    r: Result<Vec<u8>, StorageErrors>,
) -> bool {
    match r {
        Ok(content) => get_result(objects, name) == Ok::<Seq<u8>, StorageErrors>(content@),
        Err(e) => {
            ||| get_result(objects, name) == Err::<Seq<u8>, StorageErrors>(e)
            ||| !reliable && is_object_name(name) && e == StorageErrors::UnknownError
        },
    }
}

/// What a delete may do. It does what the rules say; or, where the medium
/// is not reliable and the name is an object name, it may fail with
/// `UnknownError` because the medium failed, and then it changes nothing. A
/// name that is no object name is `NotFound` whatever the medium does.
pub open spec fn delete_permits(
    reliable: bool,
    before: Objects,
    name: Seq<char>,
    r: Result<(), StorageErrors>,
    after: Objects,
) -> bool {
    ||| r == delete_result(before, name) && after == objects_after_delete(before, name)
    ||| !reliable && is_object_name(name) && r == Err::<(), StorageErrors>(
        StorageErrors::UnknownError,
    ) && after == before
}

/// A place where objects are stored by filename. Each method performs one
/// operation and reports its outcome in the closed error taxonomy.
pub trait StorageManager {
    /// The objects that are stored.
    spec fn objects(&self) -> Objects;

    /// Whether the medium cannot fail. A reliable storage follows the
    /// storage rules exactly; another may also answer `UnknownError`.
    spec fn reliable(&self) -> bool;

    /// Stores `content` under `filename` only if no object of that name
    /// exists; an existing object is never overwritten.
    fn store_file(&mut self, filename: &String, content: &Vec<u8>) -> (r: Result<(), StorageErrors>)
        ensures
            store_permits(
                old(self).reliable(),
                old(self).objects(),
                filename@,
                content@,
                r,
                final(self).objects(),
            ),
            final(self).reliable() == old(self).reliable(),
    ;

    /// Removes the object stored under `filename`.
    fn delete_file(&mut self, filename: &String) -> (r: Result<(), StorageErrors>)
        ensures
            delete_permits(
                old(self).reliable(),
                old(self).objects(),
                filename@,
                r,
                final(self).objects(),
            ),
            final(self).reliable() == old(self).reliable(),
    ;

    /// Returns the full content stored under `filename`.
    fn get_file(&self, filename: &String) -> (r: Result<Vec<u8>, StorageErrors>)
        ensures
            get_permits(self.reliable(), self.objects(), filename@, r),
    ;
}

/// The configuration of a node's storage, set once at startup and only read
/// afterwards.
#[derive(Clone, Debug)]
pub struct Storage {
    /// The declared limit on an object's size. It is carried as
    /// configuration; no operation refuses an object on its account.
    pub max_file_size: u32,
    /// The storage root: the directory under which every object lives.
    pub path: String,
}

/// The path of the object `name` under the root `root`.
pub open spec fn object_path(root: Seq<char>, name: Seq<char>) -> Seq<char> {
    root + seq!['/'] + name
}

impl Storage {
    /// The configuration of a storage rooted at `path`. The caller has made
    /// sure that the directory exists.
    pub fn start_storage(max_file_size: u32, path: String) -> (storage: Storage)
        ensures
            storage.max_file_size == max_file_size,
            storage.path == path,
    {
        Storage { max_file_size, path }
    }

    /// The path of the file that holds the object `filename`.
    pub fn make_path(&self, filename: &String) -> (path: String)
        ensures
            path@ == object_path(self.path@, filename@),
    {
        proof {
            reveal_strlit("/");
        }
        let mut path = self.path.clone();
        path.append("/");
        assert("/"@ =~= seq!['/']);
        path.append(filename.as_str());
        path
    }

    /// Where a new object `filename` is to be created exclusively, or the
    /// error to report without touching the root: a name that is no object
    /// name is refused with `UnknownError`.
    pub fn store_target(&self, filename: &String) -> (r: Result<String, StorageErrors>)
        ensures
            is_object_name(filename@) ==> r is Ok && r.unwrap()@ == object_path(
                self.path@,
                filename@,
            ),
            !is_object_name(filename@) ==> r == Err::<String, StorageErrors>(
                StorageErrors::UnknownError,
            ),
    {
        if check_filename(filename) {
            Ok(self.make_path(filename))
        } else {
            Err(StorageErrors::UnknownError)
        }
    }

    /// Where the object `filename` is to be read or removed, or the error
    /// to report without touching the root: a name that is no object name
    /// names nothing that is stored, so it is `NotFound`.
    pub fn lookup_target(&self, filename: &String) -> (r: Result<String, StorageErrors>)
        ensures
            is_object_name(filename@) ==> r is Ok && r.unwrap()@ == object_path(
                self.path@,
                filename@,
            ),
            !is_object_name(filename@) ==> r == Err::<String, StorageErrors>(
                StorageErrors::NotFound,
            ),
    {
        if check_filename(filename) {
            Ok(self.make_path(filename))
        } else {
            Err(StorageErrors::NotFound)
        }
    }
}

/// Why an operation on the underlying medium failed, as far as the storage
/// rules tell failures apart.
#[derive(Clone, Copy, Debug, PartialEq, Eq, Structural)]
pub enum IoFailure {
    /// The entry does not exist.
    NotFound,
    /// The entry exists already.
    AlreadyExists,
    /// Anything else.
    Other,
}

/// The storage error for a failed exclusive create or a failed write.
pub open spec fn store_error(failure: IoFailure) -> StorageErrors {
    match failure {
        IoFailure::AlreadyExists => StorageErrors::AlreadyExists,
        _ => StorageErrors::UnknownError,
    }
}

/// The storage error for a failed open, read or remove.
pub open spec fn lookup_error(failure: IoFailure) -> StorageErrors {
    match failure {
        IoFailure::NotFound => StorageErrors::NotFound,
        _ => StorageErrors::UnknownError,
    }
}

/// The outcome of a store, given how the exclusive create and the write
/// went: a name collision is `AlreadyExists`, every other failure
/// `UnknownError`.
pub fn store_outcome(io: Result<(), IoFailure>) -> (r: Result<(), StorageErrors>)
    ensures
        r == match io {
            Ok(()) => Ok::<(), StorageErrors>(()),
            Err(failure) => Err(store_error(failure)),
        },
{
    match io {
        Ok(()) => Ok(()),
        Err(IoFailure::AlreadyExists) => Err(StorageErrors::AlreadyExists),
        Err(_) => Err(StorageErrors::UnknownError),
    }
}

/// The outcome of a delete, given how the removal went: a missing entry is
/// `NotFound`, every other failure `UnknownError`.
pub fn delete_outcome(io: Result<(), IoFailure>) -> (r: Result<(), StorageErrors>)
    ensures
        r == match io {
            Ok(()) => Ok::<(), StorageErrors>(()),
            Err(failure) => Err(lookup_error(failure)),
        },
{
    match io {
        Ok(()) => Ok(()),
        Err(IoFailure::NotFound) => Err(StorageErrors::NotFound),
        Err(_) => Err(StorageErrors::UnknownError),
    }
}

/// The outcome of a read, given how opening and reading went: the content
/// as it was read, `NotFound` for a missing entry, `UnknownError` for every
/// other failure.
pub fn get_outcome(io: Result<Vec<u8>, IoFailure>) -> (r: Result<Vec<u8>, StorageErrors>)
    ensures
        r == match io {
            Ok(content) => Ok::<Vec<u8>, StorageErrors>(content),
            Err(failure) => Err(lookup_error(failure)),
        },
{
    match io {
        Ok(content) => Ok(content),
        Err(IoFailure::NotFound) => Err(StorageErrors::NotFound),
        Err(_) => Err(StorageErrors::UnknownError),
    }
}

/// One operation on the stored objects.
pub enum StorageOp {
    Store(Seq<char>, Seq<u8>),
    Fetch(Seq<char>),
    Remove(Seq<char>),
}

/// The objects after one operation carried out by the rules.
pub open spec fn objects_after(objects: Objects, op: StorageOp) -> Objects {
    match op {
        StorageOp::Store(name, content) => objects_after_store(objects, name, content),
        StorageOp::Fetch(name) => objects,
        StorageOp::Remove(name) => objects_after_delete(objects, name),
    }
}

/// The objects of a root that was empty and has seen `ops`, in that order.
pub open spec fn objects_after_all(ops: Seq<StorageOp>) -> Objects
    decreases ops.len(),
{
    if ops.len() == 0 {
        Map::empty()
    } else {
        objects_after(objects_after_all(ops.drop_last()), ops.last())
    }
}

/// Whether `op` is a store under `name`.
pub open spec fn stores_under(op: StorageOp, name: Seq<char>) -> bool {
    match op {
        StorageOp::Store(stored, content) => stored == name,
        _ => false,
    }
}

/// Whether some operation of `ops` is a store under `name`.
pub open spec fn ever_stored(ops: Seq<StorageOp>, name: Seq<char>) -> bool {
    exists|i: int| 0 <= i < ops.len() && stores_under(#[trigger] ops[i], name)
}

/// Exclusive create: of two creates of one object name that is not taken,
/// whichever comes first succeeds and the other is refused with
/// `AlreadyExists`; what is stored is the content of the first, and nothing
/// else has changed.
pub proof fn lemma_exclusive_create(
    objects: Objects,
    name: Seq<char>,
    first: Seq<u8>,
    second: Seq<u8>,
)
    requires
        is_object_name(name),
        !objects.contains_key(name),
    ensures
        store_result(objects, name) == Ok::<(), StorageErrors>(()),
        store_result(objects_after_store(objects, name, first), name) == Err::<(), StorageErrors>(
            StorageErrors::AlreadyExists,
        ),
        objects_after_store(objects_after_store(objects, name, first), name, second)
            == objects.insert(name, first),
        get_result(
            objects_after_store(objects_after_store(objects, name, first), name, second),
            name,
        ) == Ok::<Seq<u8>, StorageErrors>(first),
{
}

/// Read after write: after a create of `name` with `content` that
/// succeeded, a read of `name` returns exactly `content`.
pub proof fn lemma_read_after_write(objects: Objects, name: Seq<char>, content: Seq<u8>)
    requires
        store_result(objects, name) is Ok,
    ensures
        get_result(objects_after_store(objects, name, content), name) == Ok::<
            Seq<u8>,
            StorageErrors,
        >(content),
{
}

/// Delete, then read: after a delete of `name` that succeeded, a read of
/// `name` and a second delete of `name` both return `NotFound`.
pub proof fn lemma_delete_then_read(objects: Objects, name: Seq<char>)
    requires
        delete_result(objects, name) is Ok,
    ensures
        get_result(objects_after_delete(objects, name), name) == Err::<Seq<u8>, StorageErrors>(
            StorageErrors::NotFound,
        ),
        delete_result(objects_after_delete(objects, name), name) == Err::<(), StorageErrors>(
            StorageErrors::NotFound,
        ),
{
}

/// Unknown filename: in a root that was empty and has seen any operations,
/// none of which stored under `name`, a read and a delete of `name` both
/// return `NotFound`.
pub proof fn lemma_unknown_filename(ops: Seq<StorageOp>, name: Seq<char>)
    requires
        !ever_stored(ops, name),
    ensures
        !objects_after_all(ops).contains_key(name),
        get_result(objects_after_all(ops), name) == Err::<Seq<u8>, StorageErrors>(
            StorageErrors::NotFound,
        ),
        delete_result(objects_after_all(ops), name) == Err::<(), StorageErrors>(
            StorageErrors::NotFound,
        ),
    decreases ops.len(),
{
    if ops.len() > 0 {
        let front = ops.drop_last();
        assert forall|i: int| 0 <= i < front.len() implies !stores_under(
            #[trigger] front[i],
            name,
        ) by {
            assert(front[i] == ops[i]);
        }
        lemma_unknown_filename(front, name);
        assert(!stores_under(ops[ops.len() - 1], name));
    }
}

/// A name that is no object name is never stored: a create of it is
/// refused, and a read and a delete of it return `NotFound`, whatever is
/// stored.
pub proof fn lemma_names_stay_under_the_root(objects: Objects, name: Seq<char>, content: Seq<u8>)
    requires
        !is_object_name(name),
    ensures
        store_result(objects, name) == Err::<(), StorageErrors>(StorageErrors::UnknownError),
        objects_after_store(objects, name, content) == objects,
        get_result(objects, name) == Err::<Seq<u8>, StorageErrors>(StorageErrors::NotFound),
        delete_result(objects, name) == Err::<(), StorageErrors>(StorageErrors::NotFound),
        objects_after_delete(objects, name) == objects,
{
}

} // verus!
