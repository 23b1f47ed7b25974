use vstd::prelude::*;
use vstd::string::*;

verus! {

/// The bucket that the objects live in. The methods decide what the store's
/// answers mean; asking the store is left to the caller.
#[derive(Clone, Debug, PartialEq)]
pub struct S3Helper {
    pub bucket: String,
}

impl View for S3Helper {
    type V = Seq<char>;

    open spec fn view(&self) -> Seq<char> {
        self.bucket@
    }
}

/// An object could not be fetched; `message` says why.
#[derive(Debug, PartialEq)]
pub struct S3Error {
    pub message: String,
}

impl View for S3Error {
    type V = Seq<char>;

    open spec fn view(&self) -> Seq<char> {
        self.message@
    }
}

/// A chunk of an object's bytes could not be read; `message` says why.
#[derive(Debug, PartialEq)]
pub struct StreamError {
    pub message: String,
}

impl View for StreamError {
    type V = Seq<char>;

    open spec fn view(&self) -> Seq<char> {
        self.message@
    }
}

/// Binds the helper to a bucket.
pub fn create_s3_helper(bucket: &str) -> (r: S3Helper)
    ensures
        r@ == bucket@,
{
    S3Helper { bucket: String::from_str(bucket) }
}

/// Whether a key names an object: it is not empty and does not end in `/`. A
/// key that ends in `/` stands for a folder.
pub open spec fn is_object_key(key: Seq<char>) -> bool {
    key.len() > 0 && key.last() != '/'
}

/// The key of a listed object; the empty key where the store gave none.
pub open spec fn key_or_empty(key: Option<Seq<char>>) -> Seq<char> {
    match key {
        Some(key) => key,
        None => Seq::empty(),
    }
}

/// The keys of a listing that name objects, in the order of the listing.
pub open spec fn object_keys(listed: Seq<Option<Seq<char>>>) -> Seq<Seq<char>> {
    listed.map_values(|key: Option<Seq<char>>| key_or_empty(key)).filter(
        |key: Seq<char>| is_object_key(key),
    )
}

/// What a listing comes to: the object keys of what the store listed, and no
/// keys at all where the store could not be asked.
pub open spec fn listed_objects(listing: Result<Seq<Option<Seq<char>>>, Seq<char>>) -> Seq<
    Seq<char>,
> {
    match listing {
        Ok(listed) => object_keys(listed),
        Err(_) => Seq::empty(),
    }
}

/// A key is among the object keys of a listing exactly if the listing holds
/// it and it names an object: no key that ends in `/` is kept, and no
/// non-empty key that does not end in `/` is dropped.
pub proof fn lemma_object_keys_members(listed: Seq<Option<Seq<char>>>, key: Seq<char>)
    ensures
        object_keys(listed).contains(key) <==> is_object_key(key) && listed.contains(Some(key)),
{
    let texts = listed.map_values(|key: Option<Seq<char>>| key_or_empty(key));
    let pred = |key: Seq<char>| is_object_key(key);
    if object_keys(listed).contains(key) {
        texts.lemma_filter_contains_rev(pred, key);
        let k = choose|k: int| 0 <= k < object_keys(listed).len() && object_keys(listed)[k] == key;
        texts.lemma_filter_pred(pred, k);
        let i = choose|i: int| 0 <= i < texts.len() && texts[i] == key;
        assert(listed[i] == Some(key));
    }
    if is_object_key(key) && listed.contains(Some(key)) {
        let i = choose|i: int| 0 <= i < listed.len() && listed[i] == Some(key);
        assert(texts[i] == key);
        texts.lemma_filter_contains(pred, i);
    }
}

/// The object keys of a listing come in the order of the listing: what is
/// kept of a listing that goes on is what was kept so far, followed by what is
/// kept of the rest.
pub proof fn lemma_object_keys_order(
    earlier: Seq<Option<Seq<char>>>,
    later: Seq<Option<Seq<char>>>,
)
    ensures
        object_keys(earlier + later) == object_keys(earlier) + object_keys(later),
{
    let f = |key: Option<Seq<char>>| key_or_empty(key);
    let pred = |key: Seq<char>| is_object_key(key);
    assert((earlier + later).map_values(f) =~= earlier.map_values(f) + later.map_values(f));
    Seq::filter_distributes_over_add(earlier.map_values(f), later.map_values(f), pred);
}

/// What comes of fetching an object.
#[derive(Debug, PartialEq)]
pub enum ObjectFetch<T> {
    /// The store handed the object over.
    Found(T),
    /// The store has no object under the key.
    NoSuchKey,
    /// The fetch failed in any other way; the text says how.
    Failed(String),
}

/// What comes of asking for an object's metadata.
#[derive(Debug, PartialEq)]
pub enum ObjectHead {
    /// The store has the object.
    Found,
    /// The store has no object under the key.
    NotFound,
    /// Asking failed in any other way; the text says how.
    Failed(String),
}

/// What comes of reading the next chunk of an object's bytes.
#[derive(Debug, PartialEq)]
pub enum ChunkRead {
    Chunk(Vec<u8>),
    /// The read failed; the text says how.
    Failed(String),
}

/// The mathematical value of [`ChunkRead`].
pub ghost enum ChunkReadView {
    Chunk(Seq<u8>),
    Failed(Seq<char>),
}

impl View for ChunkRead {
    type V = ChunkReadView;

    open spec fn view(&self) -> ChunkReadView {
        match self {
            ChunkRead::Chunk(bytes) => ChunkReadView::Chunk(bytes@),
            ChunkRead::Failed(message) => ChunkReadView::Failed(message@),
        }
    }
}

impl DeepView for ChunkRead {
    type V = ChunkReadView;

    open spec fn deep_view(&self) -> ChunkReadView {
        self@
    }
}

/// The bytes of the chunks, one chunk after another in the order in which
/// they were read; or the account of the first read that failed.
pub open spec fn drained(reads: Seq<ChunkReadView>) -> Result<Seq<u8>, Seq<char>>
    decreases reads.len(),
{
    if reads.len() == 0 {
        Ok(Seq::empty())
    } else {
        match drained(reads.drop_last()) {
            Err(account) => Err(account),
            Ok(bytes) => match reads.last() {
                ChunkReadView::Chunk(chunk) => Ok(bytes + chunk),
                ChunkReadView::Failed(account) => Err(account),
            },
        }
    }
}

/// Once the reads up to some point have failed, all of them have, in the same
/// way.
pub proof fn lemma_drained_prefix(reads: Seq<ChunkReadView>, n: int)
    requires
        0 <= n <= reads.len(),
        drained(reads.take(n)) is Err,
    ensures
        drained(reads) == drained(reads.take(n)),
    decreases reads.len(),
{
    if n == reads.len() {
        assert(reads.take(n) =~= reads);
    } else {
        assert(reads.drop_last().take(n) =~= reads.take(n));
        lemma_drained_prefix(reads.drop_last(), n);
    }
}

/// Where every read brought a chunk, the bytes are the chunks written one
/// after another, in the order of the reads.
pub proof fn lemma_drained_chunks(chunks: Seq<Seq<u8>>)
    ensures
        drained(chunks.map_values(|chunk: Seq<u8>| ChunkReadView::Chunk(chunk))) == Ok::<
            Seq<u8>,
            Seq<char>,
        >(chunks.flatten()),
    decreases chunks.len(),
{
    let wrap = |chunk: Seq<u8>| ChunkReadView::Chunk(chunk);
    let reads = chunks.map_values(wrap);
    if chunks.len() == 0 {
        assert(chunks.flatten() =~= Seq::<u8>::empty());
    } else {
        lemma_drained_chunks(chunks.drop_last());
        assert(reads.drop_last() =~= chunks.drop_last().map_values(wrap));
        assert(reads.last() == ChunkReadView::Chunk(chunks.last()));
        chunks.lemma_flatten_and_flatten_alt_are_equivalent();
        chunks.drop_last().lemma_flatten_and_flatten_alt_are_equivalent();
    }
}

fn names_object(key: &str) -> (r: bool)
    ensures
        r == is_object_key(key@),
{
    let mut last: Option<char> = None;
    for c in it: key.chars()
        invariant
            it.seq() == key@,
            last == if it.index() == 0 {
                None
            } else {
                Some(key@[it.index() - 1])
            },
    {
        last = Some(c);
    }
    match last {
        Some(c) => c != '/',
        None => false,
    }
}

/// Picks the keys that name objects out of what the store listed, in the
/// order of the listing.
pub fn object_keys_of(listed: &Vec<Option<String>>) -> (r: Vec<String>)
    ensures
        r.deep_view() == object_keys(listed.deep_view()),
{
    let mut results: Vec<String> = Vec::new();
    let ghost texts = listed.deep_view().map_values(|key: Option<Seq<char>>| key_or_empty(key));
    let ghost pred = |key: Seq<char>| is_object_key(key);
    proof {
        reveal(Seq::filter);
        assert(texts.take(0) =~= Seq::<Seq<char>>::empty());
        assert(results.deep_view() =~= texts.take(0).filter(pred));
    }
    let mut i: usize = 0;
    while i < listed.len()
        invariant
            i <= listed.len(),
            texts == listed.deep_view().map_values(|key: Option<Seq<char>>| key_or_empty(key)),
            pred == (|key: Seq<char>| is_object_key(key)),
            results.deep_view() == texts.take(i as int).filter(pred),
        decreases listed.len() - i,
    {
        proof {
            reveal(Seq::filter);
            assert(texts.take(i + 1).drop_last() =~= texts.take(i as int));
            assert(texts.take(i + 1).last() == key_or_empty(listed@[i as int].deep_view()));
        }
        match &listed[i] {
            Some(key) => {
                if names_object(key.as_str()) {
                    let ghost before = results.deep_view();
                    results.push(key.clone());
                    assert(results.deep_view() =~= before.push(key@));
                }
            },
            None => {},
        }
        i += 1;
    }
    proof {
        assert(texts.take(listed.len() as int) =~= texts);
    }
    results
}

impl S3Helper {
    /// Concludes a listing from what the store listed: the key of each object,
    /// where it gave one. The keys that name objects are handed back, in the
    /// order of the listing; a listing that failed is the error.
    pub fn try_list_objects(&self, listing: Result<Vec<Option<String>>, String>) -> (r: Result<
        Vec<String>,
        S3Error,
    >)
        ensures
            match listing {
                Ok(listed) => r matches Ok(keys) && keys.deep_view() == object_keys(
                    listed.deep_view(),
                ),
                Err(account) => r matches Err(error) && error@ == account@,
            },
    {
        match listing {
            Ok(listed) => Ok(object_keys_of(&listed)),
            Err(message) => Err(S3Error { message }),
        }
    }

    /// Concludes a listing as [`S3Helper::try_list_objects`] does, but for a
    /// listing that failed: that comes to no keys, and the caller cannot tell
    /// it from an empty listing.
    pub fn list_objects(&self, listing: Result<Vec<Option<String>>, String>) -> (r: Vec<String>)
        ensures
            r.deep_view() == listed_objects(
                match listing {
                    Ok(listed) => Ok(listed.deep_view()),
                    Err(account) => Err(account@),
                },
            ),
    {
        match self.try_list_objects(listing) {
            Ok(keys) => keys,
            Err(_) => {
                let keys: Vec<String> = Vec::new();
                assert(keys.deep_view() =~= Seq::<Seq<char>>::empty());
                keys
            },
        }
    }

    /// Concludes a fetch: the object where the store handed it over, nothing
    /// where the store has no such key, and an error in every other case.
    /// Nothing is handed back only where the store has no such key.
    pub fn get_object<T>(&self, fetched: ObjectFetch<T>) -> (r: Result<Option<T>, S3Error>)
        ensures
            match fetched {
                ObjectFetch::Found(object) => r == Ok::<Option<T>, S3Error>(Some(object)),
                ObjectFetch::NoSuchKey => r == Ok::<Option<T>, S3Error>(None),
                ObjectFetch::Failed(account) => r matches Err(error) && error@ == account@,
            },
            r matches Ok(None) <==> fetched is NoSuchKey,
    {
        match fetched {
            ObjectFetch::Found(object) => Ok(Some(object)),
            ObjectFetch::NoSuchKey => Ok(None),
            ObjectFetch::Failed(message) => Err(S3Error { message }),
        }
    }

    /// Gathers an object's bytes from the reads of its chunks, given in the
    /// order in which they were made: the chunks one after another, or the
    /// error of the first read that failed.
    pub fn read_object_bytes(&self, reads: Vec<ChunkRead>) -> (r: Result<Vec<u8>, StreamError>)
        ensures
            match r {
                Ok(bytes) => drained(reads.deep_view()) == Ok::<Seq<u8>, Seq<char>>(bytes@),
                Err(error) => drained(reads.deep_view()) == Err::<Seq<u8>, Seq<char>>(error@),
            },
    {
        let ghost all = reads.deep_view();
        let mut mem: Vec<u8> = Vec::new();
        proof {
            assert(all.take(0) =~= Seq::<ChunkReadView>::empty());
        }
        let mut i: usize = 0;
        while i < reads.len()
            invariant
                i <= reads.len(),
                all == reads.deep_view(),
                drained(all.take(i as int)) == Ok::<Seq<u8>, Seq<char>>(mem@),
            decreases reads.len() - i,
        {
            proof {
                assert(all.take(i + 1).drop_last() =~= all.take(i as int));
                assert(all.take(i + 1).last() == reads@[i as int]@);
            }
            match &reads[i] {
                ChunkRead::Chunk(chunk) => {
                    let ghost before = mem@;
                    mem.extend_from_slice(chunk.as_slice());
                    assert(mem@ =~= before + chunk@);
                },
                ChunkRead::Failed(account) => {
                    proof {
                        assert(drained(all.take(i + 1)) == Err::<Seq<u8>, Seq<char>>(account@));
                        lemma_drained_prefix(all, i + 1);
                    }
                    return Err(StreamError { message: account.clone() });
                },
            }
            i += 1;
        }
        proof {
            assert(all.take(reads.len() as int) =~= all);
        }
        Ok(mem)
    }

    /// Concludes an existence check from the outcome of asking for the
    /// object's metadata: whether the store has the object; a check that
    /// failed is the error.
    pub fn try_object_exists(&self, head: ObjectHead) -> (r: Result<bool, S3Error>)
        ensures
            match head {
                ObjectHead::Found => r == Ok::<bool, S3Error>(true),
                ObjectHead::NotFound => r == Ok::<bool, S3Error>(false),
                ObjectHead::Failed(account) => r matches Err(error) && error@ == account@,
            },
    {
        match head {
            ObjectHead::Found => Ok(true),
            ObjectHead::NotFound => Ok(false),
            ObjectHead::Failed(message) => Err(S3Error { message }),
        }
    }

    /// Concludes an existence check as [`S3Helper::try_object_exists`] does,
    /// but for a check that failed: that comes to `false`, and the caller
    /// cannot tell it from an object that is not there.
    pub fn object_exists(&self, head: ObjectHead) -> (r: bool)
        ensures
            r == head is Found,
    {
        match self.try_object_exists(head) {
            Ok(found) => found,
            Err(_) => false,
        }
    }
}

} // verus!
