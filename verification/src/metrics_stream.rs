//! Cutting an uploaded timeline into lines as its chunks arrive, within the
//! configured byte limit.
use vstd::prelude::*;
use crate::metrics_event::ParseError;
use crate::metrics_tally::AggregationError;
use crate::service_tokens::{hex_bytes, hex_string, sha256_of};
use crate::text::{decimal, push_decimal, push_str, string_of};

verus! {

/// Why an upload is refused.
#[derive(Clone, Debug)]
pub enum TimelineStreamError {
    TooLarge { max_bytes: usize },
    LineTooLarge,
    Parse(ParseError),
    Aggregate(AggregationError),
}

impl TimelineStreamError {
    pub open spec fn message_spec(self) -> Seq<char> {
        match self {
            TimelineStreamError::TooLarge { max_bytes } => "timeline exceeds the configured "@ + decimal(
                max_bytes as nat,
            ) + " byte limit"@,
            TimelineStreamError::LineTooLarge => "NDJSON line exceeds the configured upload limit"@,
            TimelineStreamError::Parse(e) => e.text_spec(),
            TimelineStreamError::Aggregate(e) => e.message_spec(),
        }
    }

    /// The problem as text.
    pub fn message(&self) -> (r: String)
        ensures
            r@ == self.message_spec(),
    {
        match self {
            TimelineStreamError::TooLarge { max_bytes } => {
                let mut out: Vec<char> = Vec::new();
                push_str(&mut out, "timeline exceeds the configured ");
                push_decimal(&mut out, *max_bytes as u64);
                push_str(&mut out, " byte limit");
                proof {
                    assert(out@ =~= "timeline exceeds the configured "@ + decimal(*max_bytes as nat)
                        + " byte limit"@);
                }
                string_of(out.as_slice())
            },
            TimelineStreamError::LineTooLarge => "NDJSON line exceeds the configured upload limit".to_string(),
            TimelineStreamError::Parse(e) => e.text(),
            TimelineStreamError::Aggregate(e) => e.message(),
        }
    }
}

/// Lines completed by a chunk, and the bytes left waiting for the next
/// line feed.
pub open spec fn frame(pending: Seq<u8>, chunk: Seq<u8>) -> (Seq<Seq<u8>>, Seq<u8>)
    decreases chunk.len(),
{
    if chunk.len() == 0 {
        (Seq::empty(), pending)
    } else if chunk[0] == 0x0a {
        let rest = frame(Seq::empty(), chunk.drop_first());
        (seq![pending] + rest.0, rest.1)
    } else {
        frame(pending.push(chunk[0]), chunk.drop_first())
    }
}

/// A line without its trailing carriage return.
pub open spec fn without_cr(line: Seq<u8>) -> Seq<u8> {
    if line.len() > 0 && line.last() == 0x0d {
        line.drop_last()
    } else {
        line
    }
}

/// Lines numbered from `first`, each without its carriage return.
pub open spec fn numbered(lines: Seq<Seq<u8>>, first: int) -> Seq<(int, Seq<u8>)> {
    Seq::new(lines.len(), |i: int| (first + i, without_cr(lines[i])))
}

/// A numbered line of the timeline.
#[derive(Clone, Debug)]
pub struct TimelineLine {
    pub number: u64,
    pub bytes: Vec<u8>,
}

pub open spec fn line_views(lines: Seq<TimelineLine>) -> Seq<(int, Seq<u8>)> {
    Seq::new(lines.len(), |i: int| (lines[i].number as int, lines[i].bytes@))
}

/// The framing state of an upload.
pub struct LineFramer {
    pending: Vec<u8>,
    byte_count: usize,
    line_count: u64,
    max_bytes: usize,
}

proof fn lemma_frame_step(pending: Seq<u8>, chunk: Seq<u8>, i: int)
    requires
        0 <= i < chunk.len(),
    ensures
        frame(pending, chunk.subrange(i, chunk.len() as int)) == (if chunk[i] == 0x0a {
            let rest = frame(Seq::empty(), chunk.subrange(i + 1, chunk.len() as int));
            (seq![pending] + rest.0, rest.1)
        } else {
            frame(pending.push(chunk[i]), chunk.subrange(i + 1, chunk.len() as int))
        }),
{
    let s = chunk.subrange(i, chunk.len() as int);
    assert(s.drop_first() =~= chunk.subrange(i + 1, chunk.len() as int));
}

proof fn lemma_frame_lines_bounded(pending: Seq<u8>, chunk: Seq<u8>)
    ensures
        frame(pending, chunk).0.len() + frame(pending, chunk).1.len() <= pending.len() + chunk.len(),
    decreases chunk.len(),
{
    if chunk.len() > 0 {
        if chunk[0] == 0x0a {
            lemma_frame_lines_bounded(Seq::empty(), chunk.drop_first());
        } else {
            lemma_frame_lines_bounded(pending.push(chunk[0]), chunk.drop_first());
        }
    }
}

impl LineFramer {
    pub closed spec fn pending_bytes(self) -> Seq<u8> {
        self.pending@
    }

    pub closed spec fn bytes_seen(self) -> nat {
        self.byte_count as nat
    }

    pub closed spec fn lines_seen(self) -> nat {
        self.line_count as nat
    }

    pub closed spec fn limit(self) -> nat {
        self.max_bytes as nat
    }

    /// Lines and waiting bytes never exceed the bytes seen, which stay
    /// within the limit.
    pub closed spec fn wf(self) -> bool {
        &&& self.line_count + self.pending@.len() <= self.byte_count
        &&& self.byte_count <= self.max_bytes
    }

    /// A framer for an upload of at most `max_bytes` bytes.
    pub fn new(max_bytes: usize) -> (f: LineFramer)
        ensures
            f.wf(),
            f.pending_bytes() == Seq::<u8>::empty(),
            f.bytes_seen() == 0,
            f.lines_seen() == 0,
            f.limit() == max_bytes,
    {
        LineFramer { pending: Vec::new(), byte_count: 0, line_count: 0, max_bytes }
    }

    /// How many lines were cut.
    pub fn line_count(&self) -> (r: u64)
        ensures
            r == self.lines_seen(),
    {
        self.line_count
    }

    /// How many bytes were taken.
    pub fn byte_count(&self) -> (r: usize)
        ensures
            r == self.bytes_seen(),
    {
        self.byte_count
    }

    /// Takes a chunk: refused whole when it would carry the upload past
    /// the limit; else the lines it completes, numbered on from the lines
    /// before and without a trailing carriage return.
    pub fn push_chunk(&mut self, chunk: &[u8]) -> (r: Result<Vec<TimelineLine>, TimelineStreamError>)
        requires
            old(self).wf(),
        ensures
            final(self).wf(),
            final(self).limit() == old(self).limit(),
            old(self).bytes_seen() + chunk@.len() > old(self).limit() ==> {
                &&& r matches Err(TimelineStreamError::TooLarge { max_bytes }) && max_bytes == old(self).limit()
                &&& final(self).pending_bytes() == old(self).pending_bytes()
                &&& final(self).bytes_seen() == old(self).bytes_seen()
                &&& final(self).lines_seen() == old(self).lines_seen()
            },
            old(self).bytes_seen() + chunk@.len() <= old(self).limit() ==> {
                let f = frame(old(self).pending_bytes(), chunk@);
                &&& r matches Ok(lines) && line_views(lines@) == numbered(f.0, old(self).lines_seen() as int + 1)
                &&& final(self).pending_bytes() == f.1
                &&& final(self).bytes_seen() == old(self).bytes_seen() + chunk@.len()
                &&& final(self).lines_seen() == old(self).lines_seen() + f.0.len()
            },
    {
        let n: usize = chunk.len();
        if n > self.max_bytes - self.byte_count {
            return Err(TimelineStreamError::TooLarge { max_bytes: self.max_bytes });
        }
        let ghost p0 = self.pending@;
        let ghost c0 = self.line_count as int;
        let ghost b0 = self.byte_count as int;
        let ghost whole = frame(p0, chunk@);
        self.byte_count = self.byte_count + n;
        let mut lines: Vec<TimelineLine> = Vec::new();
        let ghost mut done: Seq<Seq<u8>> = Seq::empty();
        let mut i: usize = 0;
        proof {
            assert(chunk@.subrange(0, n as int) =~= chunk@);
            lemma_frame_lines_bounded(p0, chunk@);
        }
        while i < n
            invariant
                0 <= i <= n,
                n == chunk@.len(),
                whole == frame(p0, chunk@),
                whole.0 == done + frame(self.pending@, chunk@.subrange(i as int, n as int)).0,
                whole.1 == frame(self.pending@, chunk@.subrange(i as int, n as int)).1,
                line_views(lines@) == numbered(done, c0 + 1),
                self.line_count == c0 + done.len(),
                done.len() + self.pending@.len() <= p0.len() + i,
                c0 + p0.len() <= b0,
                self.byte_count == b0 + n,
                b0 + n <= self.max_bytes,
                self.max_bytes == old(self).max_bytes,
            decreases n - i,
        {
            proof {
                lemma_frame_step(self.pending@, chunk@, i as int);
            }
            let b = chunk[i];
            if b == 0x0a {
                let ghost cur = self.pending@;
                let mut line: Vec<u8> = Vec::new();
                std::mem::swap(&mut line, &mut self.pending);
                let k: usize = line.len();
                if k > 0 && line[k - 1] == 0x0d {
                    line.pop();
                }
                proof {
                    assert(line@ == without_cr(cur));
                }
                self.line_count = self.line_count + 1;
                let ghost before_lines = lines@;
                lines.push(TimelineLine { number: self.line_count, bytes: line });
                proof {
                    let lv = line_views(lines@);
                    let target = numbered(done.push(cur), c0 + 1);
                    assert(line_views(before_lines).len() == before_lines.len());
                    assert(numbered(done, c0 + 1).len() == done.len());
                    assert(before_lines.len() == done.len());
                    assert(lv.len() == target.len());
                    assert forall|x: int| 0 <= x < lv.len() implies lv[x] == target[x] by {
                        if x < before_lines.len() {
                            assert(lines@[x] == before_lines[x]);
                            assert(line_views(before_lines)[x] == numbered(done, c0 + 1)[x]);
                        }
                    }
                    assert(lv =~= target);
                    assert(done + (seq![cur] + frame(Seq::empty(), chunk@.subrange(i + 1, n as int)).0)
                        =~= done.push(cur) + frame(Seq::empty(), chunk@.subrange(i + 1, n as int)).0);
                    done = done.push(cur);
                }
            } else {
                self.pending.push(b);
            }
            i = i + 1;
        }
        proof {
            assert(chunk@.subrange(n as int, n as int) =~= Seq::<u8>::empty());
            assert(whole.0 =~= done);
        }
        Ok(lines)
    }

    /// The bytes waiting for a line feed were taken within the limit, so a
    /// waiting line is never longer than the limit.
    pub proof fn lemma_waiting_line_within_limit(self)
        requires
            self.wf(),
        ensures
            self.pending_bytes().len() <= self.limit(),
    {
    }

    /// Refuses a waiting line longer than the limit.
    pub fn check_pending(&self) -> (r: Result<(), TimelineStreamError>)
        ensures
            self.pending_bytes().len() > self.limit() ==> r matches Err(TimelineStreamError::LineTooLarge),
            self.pending_bytes().len() <= self.limit() ==> r is Ok,
    {
        if self.pending.len() > self.max_bytes {
            Err(TimelineStreamError::LineTooLarge)
        } else {
            Ok(())
        }
    }

    /// At the end of the upload the bytes after the last line feed, if
    /// any, are the last line.
    pub fn finish(&mut self) -> (r: Option<TimelineLine>)
        requires
            old(self).wf(),
        ensures
            final(self).wf(),
            final(self).pending_bytes() == Seq::<u8>::empty(),
            final(self).bytes_seen() == old(self).bytes_seen(),
            final(self).limit() == old(self).limit(),
            old(self).pending_bytes().len() == 0 ==> (r is None && final(self).lines_seen() == old(self).lines_seen()),
            old(self).pending_bytes().len() > 0 ==> (r matches Some(l) && l.number == old(self).lines_seen() + 1
                && l.bytes@ == without_cr(old(self).pending_bytes()) && final(self).lines_seen()
                == old(self).lines_seen() + 1),
    {
        if self.pending.len() == 0 {
            return None;
        }
        let mut line: Vec<u8> = Vec::new();
        std::mem::swap(&mut line, &mut self.pending);
        let k: usize = line.len();
        if line[k - 1] == 0x0d {
            line.pop();
        }
        self.line_count = self.line_count + 1;
        Some(TimelineLine { number: self.line_count, bytes: line })
    }
}

/// Lines put back together, each followed by its line feed, and the bytes
/// still waiting.
pub open spec fn rejoined(lines: Seq<Seq<u8>>, rest: Seq<u8>) -> Seq<u8>
    decreases lines.len(),
{
    if lines.len() == 0 {
        rest
    } else {
        lines[0] + seq![0x0au8] + rejoined(lines.drop_first(), rest)
    }
}

pub open spec fn has_no_line_feed(s: Seq<u8>) -> bool {
    forall|i: int| 0 <= i < s.len() ==> s[i] != 0x0a
}

/// Framing loses no byte and adds none: the lines, each with its line
/// feed, and the waiting bytes are exactly what came in; and no line holds
/// a line feed.
pub proof fn lemma_frame_keeps_every_byte(pending: Seq<u8>, chunk: Seq<u8>)
    requires
        has_no_line_feed(pending),
    ensures
        rejoined(frame(pending, chunk).0, frame(pending, chunk).1) == pending + chunk,
        forall|i: int| 0 <= i < frame(pending, chunk).0.len() ==> has_no_line_feed(#[trigger] frame(pending, chunk).0[i]),
        has_no_line_feed(frame(pending, chunk).1),
    decreases chunk.len(),
{
    if chunk.len() == 0 {
        assert(pending + chunk =~= pending);
    } else if chunk[0] == 0x0a {
        let tail = chunk.drop_first();
        lemma_frame_keeps_every_byte(Seq::empty(), tail);
        let rest = frame(Seq::empty(), tail);
        let ls = seq![pending] + rest.0;
        assert(ls.drop_first() =~= rest.0);
        assert(Seq::<u8>::empty() + tail =~= tail);
        assert(pending + seq![0x0au8] + tail =~= pending + chunk);
        assert forall|i: int| 0 <= i < ls.len() implies has_no_line_feed(#[trigger] ls[i]) by {
            if i > 0 {
                assert(ls[i] == rest.0[i - 1]);
            }
        }
    } else {
        let tail = chunk.drop_first();
        lemma_frame_keeps_every_byte(pending.push(chunk[0]), tail);
        assert(pending.push(chunk[0]) + tail =~= pending + chunk);
    }
}

/// The lines an upload's bytes are cut into, and the bytes after the last
/// line feed.
pub open spec fn upload_frame(bytes: Seq<u8>) -> (Seq<Seq<u8>>, Seq<u8>) {
    frame(Seq::empty(), bytes)
}

/// Framing a chunk after another is framing the two at once: the lines of
/// the first, then those the second completes from what the first left
/// waiting.
pub proof fn lemma_frame_append(pending: Seq<u8>, first: Seq<u8>, second: Seq<u8>)
    ensures
        frame(pending, first + second).0 == frame(pending, first).0 + frame(frame(pending, first).1, second).0,
        frame(pending, first + second).1 == frame(frame(pending, first).1, second).1,
    decreases first.len(),
{
    if first.len() == 0 {
        assert(first + second =~= second);
        assert(Seq::<Seq<u8>>::empty() + frame(pending, second).0 =~= frame(pending, second).0);
    } else {
        let tail = first.drop_first();
        assert((first + second).drop_first() =~= tail + second);
        assert((first + second)[0] == first[0]);
        if first[0] == 0x0a {
            lemma_frame_append(Seq::empty(), tail, second);
            let a = frame(Seq::<u8>::empty(), tail);
            assert(seq![pending] + (a.0 + frame(a.1, second).0) =~= (seq![pending] + a.0) + frame(a.1, second).0);
        } else {
            lemma_frame_append(pending.push(first[0]), tail, second);
        }
    }
}

/// However an upload is split into chunks, it is cut into the same lines,
/// numbered alike: the lines of the first part, then, numbered on, the
/// lines the second part completes.
pub proof fn lemma_split_does_not_matter(first: Seq<u8>, second: Seq<u8>)
    ensures
        upload_frame(first + second).1 == frame(upload_frame(first).1, second).1,
        numbered(upload_frame(first + second).0, 1) == numbered(upload_frame(first).0, 1) + numbered(
            frame(upload_frame(first).1, second).0,
            upload_frame(first).0.len() + 1int,
        ),
{
    lemma_frame_append(Seq::empty(), first, second);
    let a = upload_frame(first).0;
    let b = frame(upload_frame(first).1, second).0;
    let whole = numbered(a + b, 1);
    let parts = numbered(a, 1) + numbered(b, a.len() + 1int);
    assert(whole.len() == parts.len());
    assert forall|i: int| 0 <= i < whole.len() implies whole[i] == parts[i] by {
        if i < a.len() {
            assert((a + b)[i] == a[i]);
        } else {
            assert((a + b)[i] == b[i - a.len()]);
        }
    }
    assert(whole =~= parts);
}

/// The chunks of an upload joined, in order.
pub open spec fn joined(chunks: Seq<Seq<u8>>) -> Seq<u8>
    decreases chunks.len(),
{
    if chunks.len() == 0 {
        Seq::empty()
    } else {
        joined(chunks.drop_last()) + chunks.last()
    }
}

/// The numbered lines an upload hands out, chunk after chunk, as
/// `TimelineUpload::push_chunk` states them: each chunk the lines it
/// completes, numbered on from those before.
pub open spec fn pushed_lines(chunks: Seq<Seq<u8>>) -> Seq<(int, Seq<u8>)>
    decreases chunks.len(),
{
    if chunks.len() == 0 {
        Seq::empty()
    } else {
        let before = upload_frame(joined(chunks.drop_last())).0;
        let after = upload_frame(joined(chunks)).0;
        pushed_lines(chunks.drop_last()) + numbered(
            after.subrange(before.len() as int, after.len() as int),
            before.len() + 1int,
        )
    }
}

/// However an upload is split into chunks, the lines handed out chunk by
/// chunk are the lines of the whole upload, numbered from one; so two splits
/// of the same bytes hand out the same lines, and, as `TimelineUpload::finish`
/// states its totals over all the bytes taken, end with the same last line,
/// digest, byte count and line count.
pub proof fn lemma_any_split_gives_the_same_lines(chunks: Seq<Seq<u8>>)
    ensures
        pushed_lines(chunks) == numbered(upload_frame(joined(chunks)).0, 1),
    decreases chunks.len(),
{
    if chunks.len() == 0 {
        assert(numbered(upload_frame(Seq::<u8>::empty()).0, 1) =~= Seq::<(int, Seq<u8>)>::empty());
    } else {
        let prefix = chunks.drop_last();
        lemma_any_split_gives_the_same_lines(prefix);
        lemma_split_does_not_matter(joined(prefix), chunks.last());
        lemma_frame_append(Seq::empty(), joined(prefix), chunks.last());
        let before = upload_frame(joined(prefix)).0;
        let after = upload_frame(joined(chunks)).0;
        let f = frame(upload_frame(joined(prefix)).1, chunks.last());
        assert(after == before + f.0);
        assert(after.subrange(before.len() as int, after.len() as int) =~= f.0);
    }
}

/// Two splits of the same bytes hand out the same lines.
pub proof fn lemma_two_splits_agree(a: Seq<Seq<u8>>, b: Seq<Seq<u8>>)
    requires
        joined(a) == joined(b),
    ensures
        pushed_lines(a) == pushed_lines(b),
        upload_frame(joined(a)) == upload_frame(joined(b)),
{
    lemma_any_split_gives_the_same_lines(a);
    lemma_any_split_gives_the_same_lines(b);
}

/// The SHA-256 digest of an upload, fed chunk by chunk: a `sha2::Sha256`
/// hasher kept in a private field. The bytes it has been fed are named by
/// `digest_fed`.
#[verifier::external_body]
pub struct UploadDigest {
    hasher: sha2::Sha256,
}

/// The bytes a hasher has been fed, in the order fed.
pub uninterp spec fn digest_fed(d: UploadDigest) -> Seq<u8>;

impl UploadDigest {
    /// The bytes fed so far.
    pub open spec fn fed(&self) -> Seq<u8> {
        digest_fed(*self)
    }

    /// Calls `sha2::Digest::new`: a hasher that has been fed nothing.
    #[verifier::external_body]
    pub(crate) fn new() -> (d: Self)
        ensures
            digest_fed(d) == Seq::<u8>::empty(),
    {
        UploadDigest { hasher: <sha2::Sha256 as sha2::Digest>::new() }
    }

    /// Calls `sha2::Digest::update`: the chunk is fed after the bytes fed
    /// before.
    #[verifier::external_body]
    pub(crate) fn update(&mut self, chunk: &[u8])
        ensures
            digest_fed(*final(self)) == digest_fed(*old(self)) + chunk@,
    {
        <sha2::Sha256 as sha2::Digest>::update(&mut self.hasher, chunk);
    }

    /// Calls `sha2::Digest::finalize`: the digest of all the bytes fed, the
    /// same as that of the bytes in one piece (named by `sha256_of`), 32
    /// bytes long.
    #[verifier::external_body]
    fn digest(self) -> (r: Vec<u8>)
        ensures
            r@ == sha256_of(digest_fed(self)),
            r@.len() == 32,
    {
        <sha2::Sha256 as sha2::Digest>::finalize(self.hasher).to_vec()
    }

    /// The digest of the bytes fed, in lower-case hexadecimal.
    pub(crate) fn finish(self) -> (h: String)
        ensures
            h@ == hex_bytes(sha256_of(self.fed())),
    {
        let d = self.digest();
        hex_string(d.as_slice())
    }
}

/// What is known of a whole upload once it ends.
#[derive(Clone, Debug)]
pub struct UploadTotals {
    pub content_sha256: String,
    pub byte_count: usize,
    pub line_count: u64,
}

/// An upload read chunk by chunk: its lines and the digest of its bytes.
pub struct TimelineUpload {
    framer: LineFramer,
    digest: UploadDigest,
}

impl TimelineUpload {
    /// The bytes taken so far.
    pub closed spec fn bytes(&self) -> Seq<u8> {
        self.digest.fed()
    }

    /// The most bytes an upload may have.
    pub closed spec fn limit(&self) -> nat {
        self.framer.limit()
    }

    /// The framer has seen exactly the bytes hashed, and its state is the
    /// framing of those bytes.
    pub closed spec fn wf(&self) -> bool {
        &&& self.framer.wf()
        &&& self.framer.bytes_seen() == self.digest.fed().len()
        &&& self.framer.pending_bytes() == upload_frame(self.digest.fed()).1
        &&& self.framer.lines_seen() == upload_frame(self.digest.fed()).0.len()
    }

    /// An upload of at most `max_bytes` bytes, with nothing taken yet.
    pub fn new(max_bytes: usize) -> (u: TimelineUpload)
        ensures
            u.wf(),
            u.bytes() == Seq::<u8>::empty(),
            u.limit() == max_bytes,
    {
        TimelineUpload { framer: LineFramer::new(max_bytes), digest: UploadDigest::new() }
    }

    /// Takes a chunk: refused whole, with nothing taken, when it would carry
    /// the upload past the limit; else the chunk is hashed after the bytes
    /// before it, and the lines it completes are returned, numbered on and
    /// without a trailing carriage return.
    pub fn push_chunk(&mut self, chunk: &[u8]) -> (r: Result<Vec<TimelineLine>, TimelineStreamError>)
        requires
            old(self).wf(),
        ensures
            final(self).wf(),
            final(self).limit() == old(self).limit(),
            old(self).bytes().len() + chunk@.len() > old(self).limit() ==> {
                &&& r matches Err(TimelineStreamError::TooLarge { max_bytes }) && max_bytes == old(self).limit()
                &&& final(self).bytes() == old(self).bytes()
            },
            old(self).bytes().len() + chunk@.len() <= old(self).limit() ==> {
                let before = upload_frame(old(self).bytes()).0;
                let after = upload_frame(final(self).bytes()).0;
                &&& final(self).bytes() == old(self).bytes() + chunk@
                &&& r matches Ok(lines) && line_views(lines@) == numbered(
                    after.subrange(before.len() as int, after.len() as int),
                    before.len() + 1int,
                )
            },
    {
        let ghost b0 = self.digest.fed();
        let r = self.framer.push_chunk(chunk);
        if r.is_ok() {
            self.digest.update(chunk);
            proof {
                lemma_frame_append(Seq::empty(), b0, chunk@);
                let before = upload_frame(b0).0;
                let f = frame(upload_frame(b0).1, chunk@);
                assert((before + f.0).subrange(before.len() as int, (before + f.0).len() as int) =~= f.0);
            }
        }
        r
    }

    /// The check for a waiting line longer than the limit; the bytes
    /// waiting were taken within the limit, so it always passes.
    pub fn check_pending(&self) -> (r: Result<(), TimelineStreamError>)
        requires
            self.wf(),
        ensures
            r is Ok,
    {
        proof {
            self.framer.lemma_waiting_line_within_limit();
        }
        self.framer.check_pending()
    }

    /// Ends the upload: the bytes after the last line feed, if any, are its
    /// last line; and the digest, size and line count of all the bytes.
    pub fn finish(self) -> (r: (Option<TimelineLine>, UploadTotals))
        requires
            self.wf(),
        ensures
            upload_frame(self.bytes()).1.len() == 0 ==> r.0 is None,
            upload_frame(self.bytes()).1.len() > 0 ==> (r.0 matches Some(l) && l.number == upload_frame(
                self.bytes(),
            ).0.len() + 1 && l.bytes@ == without_cr(upload_frame(self.bytes()).1)),
            r.1.content_sha256@ == hex_bytes(sha256_of(self.bytes())),
            r.1.byte_count == self.bytes().len(),
            r.1.line_count == upload_frame(self.bytes()).0.len() + (if upload_frame(self.bytes()).1.len() > 0 {
                1int
            } else {
                0int
            }),
    {
        let mut framer = self.framer;
        let last = framer.finish();
        let totals = UploadTotals {
            content_sha256: self.digest.finish(),
            byte_count: framer.byte_count(),
            line_count: framer.line_count(),
        };
        (last, totals)
    }
}

} // verus!
