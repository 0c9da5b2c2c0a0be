//! Artifact naming and the managed screenshots directory: timestamp-derived
//! file names, idempotent directory setup, and same-name overwrite semantics.
use vstd::prelude::*;
use vstd::string::StringExecFns;

verus! {

/// The character for one decimal digit.
pub open spec fn digit_char(d: int) -> char {
    if d == 0 {
        '0'
    } else if d == 1 {
        '1'
    } else if d == 2 {
        '2'
    } else if d == 3 {
        '3'
    } else if d == 4 {
        '4'
    } else if d == 5 {
        '5'
    } else if d == 6 {
        '6'
    } else if d == 7 {
        '7'
    } else if d == 8 {
        '8'
    } else {
        '9'
    }
}

/// The decimal digit characters of a non-negative number, most significant
/// first and without leading zeros (a single zero for zero itself).
pub open spec fn decimal_digits(n: int) -> Seq<char>
    decreases n,
{
    if n < 10 {
        seq![digit_char(n)]
    } else {
        decimal_digits(n / 10).push(digit_char(n % 10))
    }
}

/// The name of the artifact saved for a capture at the given timestamp,
/// in seconds since the epoch: `screenshot_<timestamp>.png`. Two captures in
/// the same second share a name; the later one overwrites the earlier.
pub open spec fn filename_chars(timestamp: int) -> Seq<char> {
    "screenshot_"@ + decimal_digits(timestamp) + ".png"@
}

/// The one-character string for a decimal digit.
fn digit_str(d: u64) -> (r: &'static str)
    requires
        d < 10,
    ensures
        r@ == seq![digit_char(d as int)],
{
    let r: &'static str = if d == 0 {
        "0"
    } else if d == 1 {
        "1"
    } else if d == 2 {
        "2"
    } else if d == 3 {
        "3"
    } else if d == 4 {
        "4"
    } else if d == 5 {
        "5"
    } else if d == 6 {
        "6"
    } else if d == 7 {
        "7"
    } else if d == 8 {
        "8"
    } else {
        "9"
    };
    proof {
        reveal_strlit("0");
        reveal_strlit("1");
        reveal_strlit("2");
        reveal_strlit("3");
        reveal_strlit("4");
        reveal_strlit("5");
        reveal_strlit("6");
        reveal_strlit("7");
        reveal_strlit("8");
        reveal_strlit("9");
        assert(r@ =~= seq![digit_char(d as int)]);
    }
    r
}

/// Appends the decimal digits of `n` to `s`, most significant first.
fn push_decimal(s: &mut String, n: u64)
    ensures
        final (s)@ == old(s)@ + decimal_digits(n as int),
    decreases n,
{
    if n >= 10 {
        proof {
            assert(n / 10 < n) by (nonlinear_arith)
                requires
                    n >= 10,
            ;
        }
        push_decimal(s, n / 10);
    }
    s.append(digit_str(n % 10));
    proof {
        if n < 10 {
            assert(old(s)@ + decimal_digits(n as int) =~= old(s)@ + seq![
                digit_char((n % 10) as int),
            ]);
        } else {
            assert(old(s)@ + decimal_digits(n as int) =~= (old(s)@ + decimal_digits(
                n as int / 10,
            )) + seq![digit_char((n % 10) as int)]);
        }
    }
}

/// Derives the artifact file name for a capture at the given timestamp:
/// `screenshot_<timestamp>.png`.
pub fn screenshot_filename(timestamp: u64) -> (r: String)
    ensures
        r@ == filename_chars(timestamp as int),
{
    let mut s = "screenshot_".to_owned();
    push_decimal(&mut s, timestamp);
    s.append(".png");
    proof {
        assert(s@ =~= filename_chars(timestamp as int));
    }
    s
}

/// Appends the fixed `screenshots` subdirectory to the application-writable
/// base directory supplied by the environment.
pub fn screenshots_dir_path(base: &str) -> (r: String)
    ensures
        r@ == base@ + "/screenshots"@,
{
    let mut s = base.to_owned();
    s.append("/screenshots");
    s
}

/// What is known of one saved artifact: the timestamp its name was derived
/// from and the dimensions of the image it holds.
#[derive(Clone, Copy, PartialEq, Eq, Structural, Debug)]
pub struct SavedEntry {
    pub timestamp: u64,
    pub width: u32,
    pub height: u32,
}

/// Some saved artifact carries the given timestamp.
pub open spec fn has_timestamp(entries: Seq<SavedEntry>, timestamp: u64) -> bool {
    exists|i: int| 0 <= i < entries.len() && entries[i].timestamp == timestamp
}

/// How one save step changes the directory contents: a fresh name is
/// appended, an existing name is overwritten in place, and afterwards the
/// name is present either way.
pub open spec fn saves_entry(pre: Seq<SavedEntry>, post: Seq<SavedEntry>, entry: SavedEntry) -> bool {
    &&& !has_timestamp(pre, entry.timestamp) ==> post == pre.push(entry)
    &&& has_timestamp(pre, entry.timestamp) ==> {
        &&& post.len() == pre.len()
        &&& exists|i: int|
            0 <= i < pre.len() && pre[i].timestamp == entry.timestamp && post == pre.update(
                i,
                entry,
            )
    }
    &&& has_timestamp(post, entry.timestamp)
}

/// Two consecutive saves that carry the same timestamp leave one surviving
/// artifact for it: the first may add a file, the second only overwrites, so
/// the directory grows by at most the first save.
pub proof fn lemma_same_second_save_overwrites(
    pre: Seq<SavedEntry>,
    mid: Seq<SavedEntry>,
    post: Seq<SavedEntry>,
    first: SavedEntry,
    second: SavedEntry,
)
    requires
        saves_entry(pre, mid, first),
        saves_entry(mid, post, second),
        first.timestamp == second.timestamp,
    ensures
        post.len() == mid.len(),
        has_timestamp(post, second.timestamp),
{
}

/// The flat managed screenshots directory, as the pipeline decides it: one
/// file per timestamp, no index or metadata beside the files. The directory
/// is created once, idempotently; saving under an existing name overwrites.
pub struct ArtifactStore {
    created: bool,
    entries: Vec<SavedEntry>,
}

impl ArtifactStore {
    /// The artifacts currently in the directory, in order of first save.
    pub closed spec fn entries_seq(self) -> Seq<SavedEntry> {
        self.entries@
    }

    /// Whether the directory itself has been created yet.
    pub closed spec fn is_created(self) -> bool {
        self.created
    }

    /// Artifact names are unique: timestamps occur at most once.
    pub closed spec fn wf(self) -> bool {
        forall|i: int, j: int|
            0 <= i < j < self.entries@.len() ==> self.entries@[i].timestamp
                != self.entries@[j].timestamp
    }

    /// An empty store over a not-yet-created directory.
    pub fn new() -> (r: ArtifactStore)
        ensures
            r.wf(),
            !r.is_created(),
            r.entries_seq() == Seq::<SavedEntry>::empty(),
    {
        let r = ArtifactStore { created: false, entries: Vec::new() };
        proof {
            assert(r.entries@ =~= Seq::<SavedEntry>::empty());
        }
        r
    }

    /// Marks the directory as created. Creating it a second time is a no-op:
    /// it never errors, and on an already-created directory it changes
    /// nothing at all.
    pub fn ensure_created(&mut self)
        ensures
            final (self).is_created(),
            final (self).entries_seq() == old(self).entries_seq(),
            final (self).wf() == old(self).wf(),
            old(self).is_created() ==> *final (self) == *old(self),
    {
        self.created = true;
    }

    /// Saves an artifact under its timestamp-derived name. A fresh name is
    /// appended; an existing name is overwritten in place, so a second save
    /// within the same second leaves exactly one surviving file.
    pub fn save(&mut self, entry: SavedEntry)
        requires
            old(self).wf(),
        ensures
            final (self).wf(),
            final (self).is_created() == old(self).is_created(),
            saves_entry(old(self).entries_seq(), final (self).entries_seq(), entry),
    {
        let ghost orig = self.entries@;
        let mut i: usize = 0;
        while i < self.entries.len()
            invariant
                self.entries@ == orig,
                self.created == old(self).created,
                old(self).wf(),
                orig == old(self).entries@,
                i <= orig.len(),
                forall|j: int| 0 <= j < i ==> orig[j].timestamp != entry.timestamp,
            decreases orig.len() - i,
        {
            if self.entries[i].timestamp == entry.timestamp {
                proof {
                    assert(orig[i as int].timestamp == entry.timestamp);
                    assert(has_timestamp(orig, entry.timestamp));
                }
                self.entries.set(i, entry);
                proof {
                    assert(self.entries@ == orig.update(i as int, entry));
                    assert(self.entries@[i as int].timestamp == entry.timestamp);
                    assert(has_timestamp(self.entries@, entry.timestamp));
                    assert forall|a: int, b: int|
                        0 <= a < b < self.entries@.len() implies self.entries@[a].timestamp
                        != self.entries@[b].timestamp by {
                        assert(orig[a].timestamp != orig[b].timestamp);
                    }
                }
                return ;
            }
            i = i + 1;
        }
        proof {
            assert(!has_timestamp(orig, entry.timestamp));
        }
        self.entries.push(entry);
        proof {
            assert(self.entries@ == orig.push(entry));
            assert(self.entries@[orig.len() as int].timestamp == entry.timestamp);
            assert(has_timestamp(self.entries@, entry.timestamp));
            assert forall|a: int, b: int|
                0 <= a < b < self.entries@.len() implies self.entries@[a].timestamp
                != self.entries@[b].timestamp by {
                if b < orig.len() {
                    assert(orig[a].timestamp != orig[b].timestamp);
                } else {
                    assert(self.entries@[b] == entry);
                    assert(orig[a].timestamp != entry.timestamp);
                }
            }
        }
    }

    /// The number of artifacts in the directory.
    pub fn len(&self) -> (r: usize)
        ensures
            r == self.entries_seq().len(),
    {
        self.entries.len()
    }

    /// The artifact at the given position, in order of first save.
    pub fn get(&self, i: usize) -> (r: SavedEntry)
        requires
            i < self.entries_seq().len(),
        ensures
            r == self.entries_seq()[i as int],
    {
        self.entries[i]
    }
}

} // verus!
