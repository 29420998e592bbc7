//! The nonce bag: the nonces of the developers who have seen the newest RSL.

use vstd::prelude::*;

use crate::errors::Error;
use crate::nonce::{Nonce, nonce_json, nonce_json_pretty};
use crate::text::{indent, item_sep, push_indent};

verus! {

/// A set of nonces, kept in the order in which they were added.
#[derive(Debug)]
pub struct NonceBag {
    bag: Vec<Nonce>,
}

impl View for NonceBag {
    type V = Seq<Nonce>;

    closed spec fn view(&self) -> Seq<Nonce> {
        self.bag@
    }
}

/// The items of a compact JSON list of nonces.
pub open spec fn nonce_items(ns: Seq<Nonce>) -> Seq<char>
    decreases ns.len(),
{
    if ns.len() == 0 {
        Seq::empty()
    } else if ns.len() == 1 {
        nonce_json(ns[0])
    } else {
        nonce_items(ns.drop_last()) + seq![','] + nonce_json(ns.last())
    }
}

/// `{"bag":[...]}`: a nonce bag as compact JSON.
pub open spec fn bag_json(ns: Seq<Nonce>) -> Seq<char> {
    "{\"bag\":["@ + nonce_items(ns) + "]}"@
}

/// The items of a pretty-printed JSON list of nonces whose items stand at `level`.
pub open spec fn nonce_items_pretty(ns: Seq<Nonce>, level: nat) -> Seq<char>
    decreases ns.len(),
{
    if ns.len() == 0 {
        Seq::empty()
    } else {
        nonce_items_pretty(ns.drop_last(), level) + item_sep(ns.len() - 1, level)
            + nonce_json_pretty(ns.last(), level)
    }
}

/// A pretty-printed JSON list of nonces whose brackets stand at `level`.
pub open spec fn nonce_list_pretty(ns: Seq<Nonce>, level: nat) -> Seq<char> {
    if ns.len() == 0 {
        seq!['[', ']']
    } else {
        seq!['['] + nonce_items_pretty(ns, level + 1) + seq!['\n'] + indent(level) + seq![']']
    }
}

/// A nonce bag as pretty-printed JSON whose braces stand at `level`.
pub open spec fn bag_json_pretty(ns: Seq<Nonce>, level: nat) -> Seq<char> {
    "{"@ + seq!['\n'] + indent(level + 1) + "\"bag\": "@ + nonce_list_pretty(ns, level + 1)
        + seq!['\n'] + indent(level) + "}"@
}

/// The bag file: the bytes of the nonces one after another.
pub open spec fn bag_file_bytes(ns: Seq<Nonce>) -> Seq<u8>
    decreases ns.len(),
{
    if ns.len() == 0 {
        Seq::empty()
    } else {
        bag_file_bytes(ns.drop_last()) + ns.last().bytes@
    }
}

/// The nonces that the whole 32-byte blocks of the bag file `data` hold, in
/// order; a shorter tail after them is not among them.
pub open spec fn whole_chunks(data: Seq<u8>) -> Seq<Seq<u8>> {
    Seq::new(data.len() / 32, |k: int| data.subrange(32 * k, 32 * k + 32))
}

/// The number of reads of at most 32 bytes that it takes to read `len` bytes.
pub open spec fn chunk_count(len: nat) -> nat {
    (len + 31) / 32
}

/// The 32 zero bytes that the read buffer holds before the first read.
spec fn zero_chunk() -> Seq<u8> {
    Seq::new(32, |i: int| 0u8)
}

/// The 32-byte read buffer after the `k`-th read of the bag file `data`: the
/// bytes just read, followed by what the buffer held before where fewer than
/// 32 bytes were left.
spec fn file_chunk(data: Seq<u8>, k: nat) -> Seq<u8>
    decreases k,
{
    let prev = if k == 0 {
        zero_chunk()
    } else {
        file_chunk(data, (k - 1) as nat)
    };
    let start: int = (32 * k) as int;
    let end: int = if start + 32 <= data.len() {
        start + 32
    } else {
        data.len() as int
    };
    data.subrange(start, end) + prev.subrange(end - start, 32)
}

/// The read buffer after each read of the bag file `data`.
spec fn file_chunks(data: Seq<u8>) -> Seq<Seq<u8>> {
    Seq::new(chunk_count(data.len()), |k: int| file_chunk(data, k as nat))
}

proof fn lemma_chunk_bounds(len: nat, k: nat)
    by (nonlinear_arith)
    requires
        k < chunk_count(len),
    ensures
        32 * k < len,
        32 * k + 32 <= len + 31,
        k + 1 < chunk_count(len) ==> 32 * k + 32 < len,
        k + 1 == chunk_count(len) ==> len <= 32 * k + 32,
{
}

proof fn lemma_file_chunks_whole(data: Seq<u8>)
    ensures
        file_chunks(data).len() == chunk_count(data.len()),
        forall|k: int|
            0 <= k < whole_chunks(data).len() ==> #[trigger] file_chunks(data)[k]
                == whole_chunks(data)[k],
        data.len() % 32 == 0 ==> file_chunks(data).len() == whole_chunks(data).len(),
        data.len() % 32 != 0 ==> file_chunks(data).len() == whole_chunks(data).len() + 1
            && file_chunks(data).last().take((data.len() % 32) as int) == data.skip(
            32 * (data.len() / 32) as int,
        ),
{
    let len = data.len();
    let q = len / 32;
    let r = len % 32;
    assert(len == 32 * q + r);
    assert(r == 0 ==> chunk_count(len) == q) by (nonlinear_arith)
        requires
            len == 32 * q + r,
            0 <= r < 32,
    ;
    assert(r != 0 ==> chunk_count(len) == q + 1) by (nonlinear_arith)
        requires
            len == 32 * q + r,
            0 <= r < 32,
    ;
    assert forall|k: int| 0 <= k < whole_chunks(data).len() implies #[trigger] file_chunks(data)[k]
        == whole_chunks(data)[k] by {
        assert(32 * k + 32 <= len) by (nonlinear_arith)
            requires
                k < q,
                len == 32 * q + r,
                0 <= r,
        ;
        lemma_whole_chunks(data, k as nat);
    }
    if r != 0 {
        lemma_chunk_bounds(len, q);
        let prev = if q == 0 {
            zero_chunk()
        } else {
            lemma_chunk_len(data, (q - 1) as nat);
            file_chunk(data, (q - 1) as nat)
        };
        assert(prev.len() == 32);
        assert(file_chunk(data, q).take(r as int) =~= data.skip(32 * q as int));
    }
}

proof fn lemma_chunk_len(data: Seq<u8>, k: nat)
    requires
        32 * k <= data.len(),
    ensures
        file_chunk(data, k).len() == 32,
    decreases k,
{
    if k > 0 {
        lemma_chunk_len(data, (k - 1) as nat);
    }
}

impl NonceBag {
    /// The bag file that holds this bag: the nonces' bytes one after another.
    pub fn to_file_bytes(&self) -> (res: Vec<u8>)
        ensures
            res@ == bag_file_bytes(self@),
    {
        let mut out: Vec<u8> = Vec::new();
        let mut i: usize = 0;
        while i < self.bag.len()
            invariant
                i <= self.bag@.len(),
                out@ == bag_file_bytes(self.bag@.take(i as int)),
            decreases self.bag@.len() - i,
        {
            let n = self.bag[i];
            let ghost before = out@;
            let mut j: usize = 0;
            while j < 32
                invariant
                    j <= 32,
                    out@ == before + n.bytes@.take(j as int),
                decreases 32 - j,
            {
                out.push(n.bytes[j]);
                assert(n.bytes@.take(j + 1) =~= n.bytes@.take(j as int).push(n.bytes@[j as int]));
                j = j + 1;
            }
            assert(n.bytes@.take(32) =~= n.bytes@);
            assert(self.bag@.take(i + 1).drop_last() =~= self.bag@.take(i as int));
            i = i + 1;
        }
        assert(self.bag@.take(self.bag@.len() as int) =~= self.bag@);
        out
    }

    /// Reads a bag file: 32 bytes at a time, each read a nonce. Fails where
    /// two reads give the same nonce. Where fewer than 32 bytes are left for
    /// the last read, its nonce starts with them; the rest of that nonce is
    /// left unsaid.
    pub fn from_file_bytes(data: &[u8]) -> (res: Result<NonceBag, Error>)
        ensures
            data@.len() % 32 == 0 ==> (res is Ok <==> whole_chunks(data@).no_duplicates()),
            !whole_chunks(data@).no_duplicates() ==> res is Err,
            res matches Ok(b) ==> {
                &&& b@.len() == chunk_count(data@.len())
                &&& forall|k: int|
                    0 <= k < whole_chunks(data@).len() ==> #[trigger] b@[k].bytes@
                        == whole_chunks(data@)[k]
                &&& data@.len() % 32 != 0 ==> b@.last().bytes@.take((data@.len() % 32) as int)
                    == data@.skip(32 * (data@.len() / 32) as int)
            },
            res matches Err(e) ==> e.is_msg("problem inserting nonce into bag"@),
    {
        let res = Self::read_chunks(data);
        proof {
            let whole = whole_chunks(data@);
            let chunks = file_chunks(data@);
            lemma_file_chunks_whole(data@);
            if !whole.no_duplicates() {
                let (a, b) = choose|a: int, b: int|
                    0 <= a < whole.len() && 0 <= b < whole.len() && a != b && whole[a] == whole[b];
                assert(chunks[a] == whole[a] && chunks[b] == whole[b]);
                assert(!chunks.no_duplicates());
            }
            if data@.len() % 32 == 0 {
                assert(chunks =~= whole);
            }
            if res is Ok && data@.len() % 32 != 0 {
                let bag = res->Ok_0;
                assert(bag@.last().bytes@ == chunks.last());
            }
        }
        res
    }

    /// Reads a bag file as `from_file_bytes` does, stated over the read buffer
    /// after each read.
    fn read_chunks(data: &[u8]) -> (res: Result<NonceBag, Error>)
        ensures
            res is Ok <==> file_chunks(data@).no_duplicates(),
            res matches Ok(b) ==> b@.len() == file_chunks(data@).len() && forall|k: int|
                0 <= k < b@.len() ==> #[trigger] b@[k].bytes@ == file_chunks(data@)[k],
            res matches Err(e) ==> e.is_msg("problem inserting nonce into bag"@),
    {
        let ghost chunks = file_chunks(data@);
        let len = data.len();
        let count = len / 32 + if len % 32 == 0 { 0 } else { 1 };
        assert(count == chunk_count(len as nat)) by (nonlinear_arith)
            requires
                count == len / 32 + if len % 32 == 0 { 0int } else { 1int },
        ;
        let mut bag = NonceBag::new();
        let mut buf: [u8; 32] = [0; 32];
        assert(buf@ =~= zero_chunk());
        let mut k: usize = 0;
        while k < count
            invariant
                k <= count,
                count == chunk_count(data@.len()),
                len == data@.len(),
                chunks == file_chunks(data@),
                k == 0 ==> buf@ == zero_chunk(),
                k > 0 ==> buf@ == file_chunk(data@, (k - 1) as nat),
                bag@.len() == k,
                bag@.no_duplicates(),
                forall|i: int| 0 <= i < k ==> #[trigger] bag@[i].bytes@ == chunks[i],
            decreases count - k,
        {
            proof { lemma_chunk_bounds(len as nat, k as nat); }
            let ghost prev = buf@;
            let start = 32 * k;
            let end = if len - start >= 32 { start + 32 } else { len };
            let mut j = start;
            while j < end
                invariant
                    start <= j <= end,
                    end <= len,
                    end - start <= 32,
                    len == data@.len(),
                    prev.len() == 32,
                    forall|i: int| 0 <= i < j - start ==> buf@[i] == data@[start + i],
                    forall|i: int| j - start <= i < 32 ==> buf@[i] == prev[i],
                decreases end - j,
            {
                buf[j - start] = data[j];
                j = j + 1;
            }
            assert(buf@ =~= file_chunk(data@, k as nat));
            let nonce = Nonce { bytes: buf };
            let ghost before = bag@;
            match bag.insert(nonce) {
                Ok(()) => {},
                Err(e) => {
                    proof {
                        let i = choose|i: int| 0 <= i < before.len() && before[i] == nonce;
                        assert(before[i].bytes@ == chunks[i]);
                        assert(nonce.bytes@ == chunks[k as int]);
                        assert(chunks[i] == chunks[k as int]);
                        assert(!chunks.no_duplicates());
                    }
                    return Err(e);
                },
            }
            k = k + 1;
        }
        proof {
            assert forall|i: int, j: int| 0 <= i < chunks.len() && 0 <= j < chunks.len() && i != j
                implies chunks[i] != chunks[j] by {
                if chunks[i] == chunks[j] {
                    assert(bag@[i].bytes@ == bag@[j].bytes@);
                    assert(bag@[i].bytes =~= bag@[j].bytes);
                    assert(bag@[i] == bag@[j]);
                }
            }
        }
        Ok(bag)
    }

    #[verifier::type_invariant]
    spec fn no_repeats(self) -> bool {
        self.bag@.no_duplicates()
    }

    /// An empty bag.
    pub fn new() -> (res: NonceBag)
        ensures
            res@ == Seq::<Nonce>::empty(),
    {
        NonceBag { bag: Vec::new() }
    }

    /// A bag holding `nonce` only.
    pub fn with_nonce(nonce: Nonce) -> (res: NonceBag)
        ensures
            res@ == seq![nonce],
    {
        let mut bag = Vec::new();
        bag.push(nonce);
        assert(bag@ =~= seq![nonce]);
        NonceBag { bag }
    }

    /// The number of nonces in the bag.
    pub fn len(&self) -> (res: usize)
        ensures
            res == self@.len(),
            self@.no_duplicates(),
    {
        proof { use_type_invariant(self); }
        self.bag.len()
    }

    /// The nonces of the bag, in the order in which they were added.
    pub fn nonces(&self) -> (res: &Vec<Nonce>)
        ensures
            res@ == self@,
            self@.no_duplicates(),
    {
        proof { use_type_invariant(self); }
        &self.bag
    }

    /// Where `nonce` stands in the bag, if it is there.
    fn position(&self, nonce: &Nonce) -> (res: Option<usize>)
        ensures
            res matches Some(i) ==> i < self@.len() && self@[i as int] == *nonce,
            res is None ==> !self@.contains(*nonce),
    {
        let mut i: usize = 0;
        while i < self.bag.len()
            invariant
                i <= self.bag@.len(),
                forall|j: int| 0 <= j < i ==> self.bag@[j] != *nonce,
            decreases self.bag@.len() - i,
        {
            if self.bag[i] == *nonce {
                return Some(i);
            }
            i = i + 1;
        }
        None
    }

    /// Whether `nonce` is in the bag.
    pub fn contains(&self, nonce: &Nonce) -> (res: bool)
        ensures
            res == self@.contains(*nonce),
            self@.no_duplicates(),
    {
        proof { use_type_invariant(self); }
        self.position(nonce).is_some()
    }

    /// Adds `nonce`; fails, and leaves the bag as it was, where it is there already.
    pub fn insert(&mut self, nonce: Nonce) -> (res: Result<(), Error>)
        ensures
            old(self)@.contains(nonce) ==> final(self)@ == old(self)@ && (res matches Err(e)
                && e.is_msg("problem inserting nonce into bag"@)),
            !old(self)@.contains(nonce) ==> final(self)@ == old(self)@.push(nonce) && res is Ok,
            final(self)@.no_duplicates(),
    {
        proof { use_type_invariant(&*self); }
        if self.contains(&nonce) {
            return Err(Error::msg("problem inserting nonce into bag"));
        }
        let mut items = self.bag.clone();
        assert(items@ == self.bag@);
        items.push(nonce);
        self.bag = items;
        Ok(())
    }

    /// Takes `nonce` out; fails, and leaves the bag as it was, where it is not there.
    pub fn remove(&mut self, nonce: &Nonce) -> (res: Result<(), Error>)
        ensures
            old(self)@.contains(*nonce) ==> final(self)@ == old(self)@.remove(
                old(self)@.index_of(*nonce),
            ) && res is Ok,
            !old(self)@.contains(*nonce) ==> final(self)@ == old(self)@ && (res matches Err(e)
                && e.is_msg("problem removing nonce from bag"@)),
            final(self)@.no_duplicates(),
            final(self)@.to_set() == old(self)@.to_set().remove(*nonce),
    {
        proof { use_type_invariant(&*self); }
        match self.position(nonce) {
            None => {
                assert(self@.to_set() =~= self@.to_set().remove(*nonce));
                Err(Error::msg("problem removing nonce from bag"))
            },
            Some(i) => {
                let ghost old_view = self.bag@;
                proof {
                    let j = old_view.index_of(*nonce);
                    assert(old_view.contains(*nonce));
                    assert(old_view[j] == *nonce);
                    assert(j == i);
                }
                let mut items = self.bag.clone();
                assert(items@ == self.bag@);
                items.remove(i);
                assert(items@.no_duplicates());
                self.bag = items;
                assert(self@.to_set() =~= old_view.to_set().remove(*nonce)) by {
                    assert forall|x: Nonce| old_view.to_set().remove(*nonce).contains(x) implies self@.to_set().contains(x) by {
                        let k = choose|k: int| 0 <= k < old_view.len() && old_view[k] == x;
                        if k < i {
                            assert(self@[k] == x);
                        } else {
                            assert(k != i);
                            assert(self@[k - 1] == x);
                        }
                    }
                }
                Ok(())
            },
        }
    }

    /// The bag as compact JSON: `{"bag":[...]}`.
    pub fn to_string(&self) -> (res: Result<String, Error>)
        ensures
            res matches Ok(s) && s@ == bag_json(self@),
    {
        let mut out = String::new();
        out.append("{\"bag\":[");
        let mut i: usize = 0;
        while i < self.bag.len()
            invariant
                i <= self.bag@.len(),
                out@ =~= "{\"bag\":["@ + nonce_items(self.bag@.take(i as int)),
            decreases self.bag@.len() - i,
        {
            if i > 0 {
                out.append(",");
                proof { reveal_strlit(","); }
            }
            let text = self.bag[i].to_string();
            out.append(text.as_str());
            assert(self.bag@.take(i + 1).drop_last() =~= self.bag@.take(i as int));
            assert(out@ =~= "{\"bag\":["@ + nonce_items(self.bag@.take(i + 1)));
            i = i + 1;
        }
        assert(self.bag@.take(self.bag@.len() as int) =~= self.bag@);
        out.append("]}");
        Ok(out)
    }

    /// Appends the bag as pretty-printed JSON whose braces stand at `level`.
    pub fn push_json_pretty(&self, out: &mut String, level: usize)
        requires
            level + 5 < usize::MAX,
        ensures
            final(out)@ == old(out)@ + bag_json_pretty(self@, level as nat),
    {
        let ghost start = out@;
        proof {
            reveal_strlit("\n");
            reveal_strlit(",\n");
            reveal_strlit("[]");
            reveal_strlit("[");
            reveal_strlit("]");
        }
        out.append("{");
        out.append("\n");
        push_indent(out, level + 1);
        out.append("\"bag\": ");
        let ghost mid = out@;
        if self.bag.len() == 0 {
            out.append("[]");
        } else {
            out.append("[");
            let mut i: usize = 0;
            while i < self.bag.len()
                invariant
                    i <= self.bag@.len(),
                    level + 5 < usize::MAX,
                    out@ =~= mid + seq!['['] + nonce_items_pretty(
                        self.bag@.take(i as int),
                        (level + 2) as nat,
                    ),
                    "\n"@ == seq!['\n'],
                    ",\n"@ == seq![',', '\n'],
                decreases self.bag@.len() - i,
            {
                if i == 0 {
                    out.append("\n");
                } else {
                    out.append(",\n");
                }
                push_indent(out, level + 2);
                self.bag[i].push_json_pretty(out, level + 2);
                assert(self.bag@.take(i + 1).drop_last() =~= self.bag@.take(i as int));
                assert(out@ =~= mid + seq!['['] + nonce_items_pretty(
                    self.bag@.take(i + 1),
                    (level + 2) as nat,
                ));
                i = i + 1;
            }
            assert(self.bag@.take(self.bag@.len() as int) =~= self.bag@);
            out.append("\n");
            push_indent(out, level + 1);
            out.append("]");
        }
        assert(out@ =~= mid + nonce_list_pretty(self@, (level + 1) as nat));
        out.append("\n");
        push_indent(out, level);
        out.append("}");
        assert(out@ =~= start + bag_json_pretty(self@, level as nat));
    }
}

impl Clone for NonceBag {
    fn clone(&self) -> (res: NonceBag)
        ensures
            res@ == self@,
    {
        proof { use_type_invariant(self); }
        let items = self.bag.clone();
        assert(items@ == self.bag@);
        NonceBag { bag: items }
    }
}

/// Two bags are equal when they hold the same nonces, in whatever order.
impl PartialEq for NonceBag {
    fn eq(&self, other: &NonceBag) -> (res: bool) {
        proof {
            use_type_invariant(self);
            use_type_invariant(other);
        }
        if self.bag.len() != other.bag.len() {
            proof {
                self@.unique_seq_to_set();
                other@.unique_seq_to_set();
            }
            return false;
        }
        let mut i: usize = 0;
        while i < self.bag.len()
            invariant
                i <= self.bag@.len(),
                forall|j: int| 0 <= j < i ==> other@.contains(#[trigger] self.bag@[j]),
            decreases self.bag@.len() - i,
        {
            if !other.contains(&self.bag[i]) {
                assert(self@.to_set().contains(self.bag@[i as int]));
                assert(!other@.to_set().contains(self.bag@[i as int]));
                return false;
            }
            i = i + 1;
        }
        proof {
            self@.unique_seq_to_set();
            other@.unique_seq_to_set();
            assert(self@.to_set().subset_of(other@.to_set()));
            vstd::set_lib::lemma_subset_equality(self@.to_set(), other@.to_set());
        }
        true
    }
}

impl vstd::std_specs::cmp::PartialEqSpecImpl for NonceBag {
    open spec fn obeys_eq_spec() -> bool {
        true
    }

    open spec fn eq_spec(&self, other: &NonceBag) -> bool {
        self@.to_set() == other@.to_set()
    }
}

impl Eq for NonceBag {}

impl Default for NonceBag {
    fn default() -> (res: NonceBag)
        ensures
            res@ == Seq::<Nonce>::empty(),
    {
        NonceBag::new()
    }
}

} // verus!

verus! {

proof fn lemma_bag_file_bytes(ns: Seq<Nonce>)
    ensures
        bag_file_bytes(ns).len() == 32 * ns.len(),
        forall|k: int|
            0 <= k < ns.len() ==> #[trigger] bag_file_bytes(ns).subrange(32 * k, 32 * k + 32)
                == ns[k].bytes@,
    decreases ns.len(),
{
    if ns.len() > 0 {
        let init = ns.drop_last();
        lemma_bag_file_bytes(init);
        let data = bag_file_bytes(ns);
        assert(data == bag_file_bytes(init) + ns.last().bytes@);
        assert forall|k: int| 0 <= k < ns.len() implies #[trigger] data.subrange(32 * k, 32 * k + 32)
            == ns[k].bytes@ by {
            if k < ns.len() - 1 {
                assert(init[k] == ns[k]);
                assert(32 * k + 32 <= 32 * init.len()) by (nonlinear_arith)
                    requires
                        k < init.len(),
                ;
                assert(data.subrange(32 * k, 32 * k + 32) =~= bag_file_bytes(init).subrange(
                    32 * k,
                    32 * k + 32,
                ));
            } else {
                assert(data.subrange(32 * k, 32 * k + 32) =~= ns.last().bytes@);
            }
        }
    }
}

proof fn lemma_whole_chunks(data: Seq<u8>, k: nat)
    requires
        32 * k + 32 <= data.len(),
    ensures
        file_chunk(data, k) == data.subrange(32 * k as int, (32 * k + 32) as int),
    decreases k,
{
    let prev = if k == 0 {
        zero_chunk()
    } else {
        lemma_whole_chunks(data, (k - 1) as nat);
        file_chunk(data, (k - 1) as nat)
    };
    assert(prev.len() == 32);
    assert(file_chunk(data, k) =~= data.subrange(32 * k as int, (32 * k + 32) as int));
}

/// Reading back the bag file that a bag writes gives the same nonces, in the
/// same order, and the read succeeds: the file is whole 32-byte blocks, one
/// per nonce, and no two of them are the same.
pub proof fn law_bag_file_roundtrip(ns: Seq<Nonce>)
    requires
        ns.no_duplicates(),
    ensures
        bag_file_bytes(ns).len() % 32 == 0,
        whole_chunks(bag_file_bytes(ns)).len() == ns.len(),
        forall|k: int|
            0 <= k < ns.len() ==> #[trigger] whole_chunks(bag_file_bytes(ns))[k] == ns[k].bytes@,
        whole_chunks(bag_file_bytes(ns)).no_duplicates(),
{
    let data = bag_file_bytes(ns);
    lemma_bag_file_bytes(ns);
    let n = ns.len();
    assert((32 * n) % 32 == 0 && (32 * n) / 32 == n) by (nonlinear_arith);
    let chunks = whole_chunks(data);
    assert forall|k: int| 0 <= k < n implies #[trigger] chunks[k] == ns[k].bytes@ by {
        assert(data.subrange(32 * k, 32 * k + 32) == ns[k].bytes@);
    }
    assert forall|i: int, j: int| 0 <= i < n && 0 <= j < n && i != j implies chunks[i]
        != chunks[j] by {
        if chunks[i] == chunks[j] {
            assert(ns[i].bytes =~= ns[j].bytes);
            assert(ns[i] == ns[j]);
        }
    }
}

} // verus!

verus! {

/// Inserting a nonce that is not in the bag and then removing it gives the
/// bag back as it was.
pub proof fn law_insert_then_remove(ns: Seq<Nonce>, n: Nonce)
    requires
        ns.no_duplicates(),
        !ns.contains(n),
    ensures
        ns.push(n).contains(n),
        ns.push(n).remove(ns.push(n).index_of(n)) == ns,
{
    let s = ns.push(n);
    assert(s[ns.len() as int] == n);
    let i = s.index_of(n);
    if i != ns.len() {
        assert(ns[i] == n);
    }
    assert(s.remove(i) =~= ns);
}

/// Removing a nonce that is in the bag and inserting it again leaves the bag
/// holding the same nonces.
pub proof fn law_remove_then_insert(ns: Seq<Nonce>, n: Nonce)
    requires
        ns.no_duplicates(),
        ns.contains(n),
    ensures
        !ns.remove(ns.index_of(n)).contains(n),
        ns.remove(ns.index_of(n)).push(n).to_set() == ns.to_set(),
{
    let i = ns.index_of(n);
    let r = ns.remove(i);
    assert(ns[i] == n);
    if r.contains(n) {
        let k = choose|k: int| 0 <= k < r.len() && r[k] == n;
        if k < i {
            assert(ns[k] == n);
        } else {
            assert(ns[k + 1] == n);
        }
    }
    assert forall|x: Nonce| ns.to_set().contains(x) implies r.push(n).to_set().contains(x) by {
        let k = choose|k: int| 0 <= k < ns.len() && ns[k] == x;
        if k < i {
            assert(r.push(n)[k] == x);
        } else if k == i {
            assert(r.push(n)[r.len() as int] == x);
        } else {
            assert(r.push(n)[k - 1] == x);
        }
    }
    assert forall|x: Nonce| r.push(n).to_set().contains(x) implies ns.to_set().contains(x) by {
        let k = choose|k: int| 0 <= k < r.push(n).len() && r.push(n)[k] == x;
        if k == r.len() {
            assert(ns[i] == x);
        } else if k < i {
            assert(ns[k] == x);
        } else {
            assert(ns[k + 1] == x);
        }
    }
    assert(r.push(n).to_set() =~= ns.to_set());
}

/// The pretty-printed JSON of an empty nonce bag: an empty list under `bag`.
pub proof fn law_empty_bag_json(level: nat)
    ensures
        bag_json_pretty(Seq::empty(), level) == "{"@ + seq!['\n'] + indent(level + 1) + "\"bag\": "@
            + seq!['[', ']', '\n'] + indent(level) + "}"@,
{
    assert(bag_json_pretty(Seq::empty(), level) =~= "{"@ + seq!['\n'] + indent(level + 1)
        + "\"bag\": "@ + seq!['[', ']', '\n'] + indent(level) + "}"@);
}

/// The pretty-printed JSON of a bag of one nonce: the list under `bag` opens,
/// the nonce stands on the next line one level in, and the list closes on a
/// line of its own.
pub proof fn law_single_nonce_bag_json(n: Nonce, level: nat)
    ensures
        bag_json_pretty(seq![n], level) == "{"@ + seq!['\n'] + indent(level + 1) + "\"bag\": "@
            + seq!['[', '\n'] + indent(level + 2) + nonce_json_pretty(n, level + 2) + seq!['\n']
            + indent(level + 1) + seq![']', '\n'] + indent(level) + "}"@,
{
    let ns = seq![n];
    assert(ns.drop_last() =~= Seq::<Nonce>::empty());
    assert(nonce_items_pretty(ns.drop_last(), level + 2) == Seq::<char>::empty());
    assert(ns.last() == n);
    assert(item_sep(0, level + 2) == seq!['\n'] + indent(level + 2));
    assert(nonce_items_pretty(ns, level + 2) =~= seq!['\n'] + indent(level + 2) + nonce_json_pretty(
        n,
        level + 2,
    ));
    assert(bag_json_pretty(ns, level) =~= "{"@ + seq!['\n'] + indent(level + 1) + "\"bag\": "@
        + seq!['[', '\n'] + indent(level + 2) + nonce_json_pretty(n, level + 2) + seq!['\n']
        + indent(level + 1) + seq![']', '\n'] + indent(level) + "}"@);
}

/// Adding a nonce to a bag that holds some already puts, before the closing
/// bracket of the list, a comma, a new line at the items' indentation and the
/// new nonce's JSON; the text before stays as it was.
pub proof fn law_added_nonce_bag_json(ns: Seq<Nonce>, n: Nonce, level: nat)
    requires
        ns.len() >= 1,
    ensures
        ({
            let tail = seq!['\n'] + indent(level + 1) + seq![']', '\n'] + indent(level) + "}"@;
            let before = bag_json_pretty(ns, level);
            let kept = before.take(before.len() - tail.len());
            &&& before == kept + tail
            &&& bag_json_pretty(ns.push(n), level) == kept + seq![',', '\n'] + indent(level + 2)
                + nonce_json_pretty(n, level + 2) + tail
        }),
{
    let tail = seq!['\n'] + indent(level + 1) + seq![']', '\n'] + indent(level) + "}"@;
    let head = "{"@ + seq!['\n'] + indent(level + 1) + "\"bag\": "@ + seq!['['];
    let before = bag_json_pretty(ns, level);
    let kept = head + nonce_items_pretty(ns, level + 2);
    assert(before =~= kept + tail);
    assert(before.take(before.len() - tail.len()) =~= kept);
    let more = ns.push(n);
    assert(more.drop_last() =~= ns);
    assert(more.last() == n);
    assert(item_sep(ns.len() as int, level + 2) == seq![',', '\n'] + indent(level + 2));
    assert(nonce_items_pretty(more, level + 2) == nonce_items_pretty(ns, level + 2) + item_sep(
        ns.len() as int,
        level + 2,
    ) + nonce_json_pretty(n, level + 2));
    assert(bag_json_pretty(more, level) =~= kept + seq![',', '\n'] + indent(level + 2)
        + nonce_json_pretty(n, level + 2) + tail);
}

/// Adding a nonce to a non-empty bag puts, in its compact JSON, a comma and the
/// new nonce's JSON before the closing `]}`.
pub proof fn law_added_nonce_compact(ns: Seq<Nonce>, n: Nonce)
    requires
        ns.len() >= 1,
    ensures
        ({
            let before = bag_json(ns);
            &&& before == before.take(before.len() - 2) + "]}"@
            &&& bag_json(ns.push(n)) == before.take(before.len() - 2) + seq![','] + nonce_json(n)
                + "]}"@
        }),
{
    let before = bag_json(ns);
    let kept = "{\"bag\":["@ + nonce_items(ns);
    reveal_strlit("]}");
    assert(before =~= kept + "]}"@);
    assert(before.take(before.len() - 2) =~= kept);
    let more = ns.push(n);
    assert(more.drop_last() =~= ns);
    assert(more.last() == n);
    assert(bag_json(more) =~= kept + seq![','] + nonce_json(n) + "]}"@);
}

/// The compact JSON of a bag of one nonce: that nonce's JSON alone in the list.
pub proof fn law_single_nonce_compact(n: Nonce)
    ensures
        bag_json(seq![n]) == "{\"bag\":["@ + nonce_json(n) + "]}"@,
{
    assert(seq![n][0] == n);
}

} // verus!
