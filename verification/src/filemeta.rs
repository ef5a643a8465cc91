//! The entry metadata model: everything one listing line needs about a
//! single filesystem entry, built once from the raw results of a stat-style
//! call and immutable thereafter.
//!
//! Construction is fallible but never partial: a missing final path
//! component, a missing modification time or an unclassifiable mode word
//! each fail the whole entry, with the cause tagged so diagnostics stay
//! possible even though callers treat all three alike.

use vstd::prelude::*;
use vstd::string::{StrSliceExecFns, StringExecFns};
use chrono::TimeZone;
use crate::filetype::{classify_spec, type_char_spec, ClassificationError, FileType};
use crate::identity::{Gid, Uid, UidgidDisplay};
use crate::permissions::{render_mask_spec, PermissionsMask};
use crate::text::{dec_rep, dec_rep_signed, i64_to_string, pad_spec, pad_to, u64_to_string};

verus! {

/// Why building entry metadata failed. Callers drop the entry either way;
/// the tag records which check failed.
#[derive(Clone, Copy, Debug, PartialEq, Eq, Structural)]
pub enum MetaError {
    /// The path has no final component (the filesystem root, or only
    /// separators).
    NoFinalComponent,
    /// The stat result carried no modification time.
    MissingMtime,
    /// The mode word's type bits match no known kind; carries the word.
    UnknownType(u32),
}

/// Metadata for one filesystem entry at the moment it was stat'd.
#[derive(Debug, PartialEq)]
pub struct FileMetadata {
    /// The final path component, never a full path.
    pub name: String,
    /// The entry's nine permission bits.
    pub permissions: PermissionsMask,
    /// The byte count.
    pub size: u64,
    /// The classified entry kind.
    pub file_type: FileType,
    /// The modification time, in seconds since the Unix epoch.
    pub mtime_secs: i64,
    /// The owning user.
    pub uid: Uid,
    /// The owning group.
    pub gid: Gid,
}

/// A name marks its entry hidden when it begins with a dot.
pub open spec fn is_hidden_spec(name: Seq<char>) -> bool {
    name.len() > 0 && name[0] == '.'
}

/// `s` with every trailing separator removed.
pub open spec fn trim_slashes(s: Seq<char>) -> Seq<char>
    decreases s.len(),
{
    if s.len() > 0 && s.last() == '/' {
        trim_slashes(s.drop_last())
    } else {
        s
    }
}

/// The maximal separator-free suffix of `s`.
pub open spec fn last_segment(s: Seq<char>) -> Seq<char>
    decreases s.len(),
{
    if s.len() == 0 || s.last() == '/' {
        Seq::empty()
    } else {
        last_segment(s.drop_last()).push(s.last())
    }
}

/// `s` with trailing separators removed, and then every trailing `.`
/// segment removed in turn — except a `.` that opens the path, which
/// stays, being a component of its own. What remains ends with the path's
/// final component, or is empty when the path has none.
pub open spec fn canonical_tail(s: Seq<char>) -> Seq<char>
    decreases s.len(),
    via canonical_tail_decreases
{
    let t = trim_slashes(s);
    if t.len() > 1 && last_segment(t) == seq!['.'] {
        canonical_tail(t.drop_last())
    } else {
        t
    }
}

#[via_fn]
proof fn canonical_tail_decreases(s: Seq<char>) {
    lemma_trim_slashes_len(s);
}

/// Trimming trailing separators never lengthens a path.
proof fn lemma_trim_slashes_len(s: Seq<char>)
    ensures
        trim_slashes(s).len() <= s.len(),
    decreases s.len(),
{
    if s.len() > 0 && s.last() == '/' {
        lemma_trim_slashes_len(s.drop_last());
    }
}

/// The final component of a path: the last separator-free segment once
/// trailing separators and trailing `.` segments are dropped, or nothing
/// when none remains (the root, the empty path, or separators and dots
/// alone).
pub open spec fn final_component_spec(s: Seq<char>) -> Option<Seq<char>> {
    if canonical_tail(s).len() == 0 {
        None
    } else {
        Some(last_segment(canonical_tail(s)))
    }
}

/// When everything from `start` on is separator-free and `start` sits just
/// after a separator (or at the front), the last segment is exactly the
/// suffix from `start`.
proof fn lemma_last_segment_subrange(s: Seq<char>, start: int)
    requires
        0 <= start <= s.len(),
        forall|i: int| start <= i < s.len() ==> s[i] != '/',
        start > 0 ==> s[start - 1] == '/',
    ensures
        last_segment(s) == s.subrange(start, s.len() as int),
    decreases s.len() - start,
{
    if start == s.len() {
        assert(s.subrange(start, s.len() as int) =~= Seq::<char>::empty());
        if s.len() > 0 {
            assert(s.last() == s[start - 1]);
        }
    } else {
        assert(s.last() != '/');
        let rest = s.drop_last();
        assert(forall|i: int| start <= i < rest.len() ==> rest[i] != '/');
        if start > 0 {
            assert(rest[start - 1] == '/');
        }
        lemma_last_segment_subrange(rest, start);
        assert(rest.subrange(start, rest.len() as int).push(s.last()) =~= s.subrange(
            start,
            s.len() as int,
        ));
    }
}

/// Dropping one trailing separator leaves the canonical tail unchanged.
proof fn lemma_canonical_tail_slash(s: Seq<char>)
    requires
        s.len() > 0,
        s.last() == '/',
    ensures
        canonical_tail(s) == canonical_tail(s.drop_last()),
{
    assert(trim_slashes(s) == trim_slashes(s.drop_last()));
}

/// Extracts the final component of a path written as text, or nothing when
/// the path has none.
pub fn final_component(path: &str) -> (r: Option<String>)
    ensures
        (match r {
            Some(n) => Some(n@),
            None => None::<Seq<char>>,
        }) == final_component_spec(path@),
{
    let n: usize = path.unicode_len();
    proof {
        assert(path@.subrange(0, n as int) =~= path@);
    }
    let mut end: usize = n;
    while end > 0
        invariant
            end <= n,
            n == path@.len(),
            canonical_tail(path@) == canonical_tail(path@.subrange(0, end as int)),
        decreases end,
    {
        let ghost prefix = path@.subrange(0, end as int);
        if path.get_char(end - 1) == '/' {
            proof {
                assert(prefix.last() == path@[end - 1]);
                lemma_canonical_tail_slash(prefix);
                assert(prefix.drop_last() =~= path@.subrange(0, end - 1));
            }
            end = end - 1;
        } else {
            let mut start: usize = end;
            while start > 0 && !(path.get_char(start - 1) == '/')
                invariant
                    start <= end,
                    end <= n,
                    n == path@.len(),
                    forall|i: int| start <= i < end ==> path@[i] != '/',
                decreases start,
            {
                start = start - 1;
            }
            proof {
                assert(prefix.last() == path@[end - 1]);
                assert(trim_slashes(prefix) == prefix);
                assert(forall|i: int| start <= i < prefix.len() ==> prefix[i] != '/');
                if start > 0 {
                    assert(prefix[start - 1] == path@[start - 1]);
                }
                if start == end {
                    assert(path@[end - 1] == '/');
                }
                lemma_last_segment_subrange(prefix, start as int);
                assert(prefix.subrange(start as int, end as int) =~= path@.subrange(
                    start as int,
                    end as int,
                ));
            }
            if end - start == 1 && end > 1 && path.get_char(start) == '.' {
                proof {
                    assert(path@.subrange(start as int, end as int) =~= seq!['.']);
                    assert(canonical_tail(prefix) == canonical_tail(prefix.drop_last()));
                    assert(prefix.drop_last() =~= path@.subrange(0, start as int));
                }
                end = start;
            } else {
                proof {
                    let seg = path@.subrange(start as int, end as int);
                    if prefix.len() > 1 && last_segment(prefix) == seq!['.'] {
                        assert(seg.len() == 1);
                        assert(end - start == 1);
                        assert(path@[start as int] == seg[0]);
                        assert(path@[start as int] == '.');
                    }
                    assert(canonical_tail(prefix) == prefix);
                    assert(prefix.len() > 0);
                }
                let seg = path.substring_char(start, end);
                return Some(seg.to_owned());
            }
        }
    }
    proof {
        assert(path@.subrange(0, 0) =~= Seq::<char>::empty());
    }
    None
}

/// One full metadata line: type tag, nine permission characters, then the
/// size, owner, group and date fields each left-justified to eight
/// characters and followed by one space, then the bare name.
pub open spec fn line_spec(
    m: FileMetadata,
    owner: Seq<char>,
    group: Seq<char>,
    date: Seq<char>,
) -> Seq<char> {
    seq![type_char_spec(m.file_type)] + render_mask_spec(m.permissions.bits) + seq![' ']
        + pad_spec(dec_rep(m.size as nat), 8) + seq![' '] + pad_spec(owner, 8) + seq![' ']
        + pad_spec(group, 8) + seq![' '] + pad_spec(date, 8) + seq![' '] + m.name@
}

/// Relies on std::time::SystemTime::now, whose documentation says it
/// returns the system clock's reading: the whole seconds between the Unix
/// epoch and now, with a flag saying the clock stands before the epoch
/// (the error branch of duration_since carries that distance). Total: both
/// branches return. The result depends on the clock, so nothing is
/// promised of it.
#[verifier::external_body]
fn clock_since_epoch() -> (bool, u64) {
    match std::time::SystemTime::now().duration_since(std::time::UNIX_EPOCH) {
        Ok(d) => (false, d.as_secs()),
        Err(e) => (true, e.duration().as_secs()),
    }
}

/// The clock's reading as a signed Unix timestamp: negative when the
/// clock stands before the epoch; a magnitude beyond the signed range
/// saturates. Total for every clock reading.
fn now_unix_secs() -> i64 {
    let (before_epoch, magnitude) = clock_since_epoch();
    let capped: u64 = if magnitude > i64::MAX as u64 {
        i64::MAX as u64
    } else {
        magnitude
    };
    let signed: i64 = capped as i64;
    if before_epoch {
        -signed
    } else {
        signed
    }
}

/// Relies on chrono::TimeZone::timestamp_opt and DateTime::format: the
/// timestamp rendered in the machine's local time zone as day, abbreviated
/// month and four-digit year, or nothing when the timestamp lies outside
/// the calendar's range. The result depends on the local time zone, so
/// nothing is promised of it.
#[verifier::external_body]
fn format_day_month_year(secs: i64) -> Option<String> {
    match chrono::Local.timestamp_opt(secs, 0).single() {
        Some(dt) => Some(dt.format("%d %b %Y").to_string()),
        None => None,
    }
}

/// Relies on chrono::TimeZone::timestamp_opt and DateTime::format: the
/// timestamp rendered in the machine's local time zone as day, abbreviated
/// month and 24-hour clock time, or nothing when the timestamp lies outside
/// the calendar's range. The result depends on the local time zone, so
/// nothing is promised of it.
#[verifier::external_body]
fn format_day_month_time(secs: i64) -> Option<String> {
    match chrono::Local.timestamp_opt(secs, 0).single() {
        Some(dt) => Some(dt.format("%d %b %H:%M").to_string()),
        None => None,
    }
}

/// Law and chooser for the date field's recency rule: given the two
/// calendar renderings of a modification time, the year form is used
/// exactly when more than 24 hours lie between it and "now", and the
/// clock-time form otherwise; a timestamp the calendar could not render
/// falls back to its raw seconds, so the field is never absent.
pub fn date_text(
    year_form: Option<String>,
    time_form: Option<String>,
    mtime_secs: i64,
    now_secs: i64,
) -> (r: String)
    ensures
        now_secs - mtime_secs > 86400 ==> r@ == (match year_form {
            Some(s) => s@,
            None => dec_rep_signed(mtime_secs as int),
        }),
        now_secs - mtime_secs <= 86400 ==> r@ == (match time_form {
            Some(s) => s@,
            None => dec_rep_signed(mtime_secs as int),
        }),
{
    let elapsed: i128 = (now_secs as i128) - (mtime_secs as i128);
    let formatted: Option<String> = if elapsed > 86400 {
        year_form
    } else {
        time_form
    };
    match formatted {
        Some(s) => s,
        None => i64_to_string(mtime_secs),
    }
}

/// The date field for a modification time, judged against the given
/// "now": both calendar forms come from the local time zone through the
/// trusted formatters, and the verified `date_text` applies the 24-hour
/// recency rule to pick between them.
fn date_field(mtime_secs: i64, now_secs: i64) -> String {
    let year_form = format_day_month_year(mtime_secs);
    let time_form = format_day_month_time(mtime_secs);
    date_text(year_form, time_form, mtime_secs, now_secs)
}

impl FileMetadata {
    /// An entry is well formed when its permission mask is confined to the
    /// low nine bits.
    pub open spec fn wf(self) -> bool {
        self.permissions.wf()
    }

    /// Builds the metadata for one entry from the raw results of a
    /// stat-style call that did not follow a trailing symlink. Fails — and
    /// never exposes a partial entry — when the path has no final
    /// component, when no modification time is available, or when the mode
    /// word's type bits match no known kind.
    pub fn for_stat(
        path: &str,
        mode: u32,
        size: u64,
        uid: u32,
        gid: u32,
        mtime_secs: Option<i64>,
    ) -> (r: Result<FileMetadata, MetaError>)
        ensures
            final_component_spec(path@) is None ==> r == Err::<FileMetadata, MetaError>(
                MetaError::NoFinalComponent,
            ),
            final_component_spec(path@) is Some && mtime_secs is None ==> r == Err::<
                FileMetadata,
                MetaError,
            >(MetaError::MissingMtime),
            final_component_spec(path@) is Some && mtime_secs is Some && classify_spec(mode)
                is Err ==> r == Err::<FileMetadata, MetaError>(MetaError::UnknownType(mode)),
            final_component_spec(path@) is Some && mtime_secs is Some && classify_spec(mode)
                is Ok ==> (r matches Ok(m) && Some(m.name@) == final_component_spec(path@)
                && m.permissions.bits == (mode & 0o777) && m.wf() && m.size == size && Ok::<
                FileType,
                ClassificationError,
            >(m.file_type) == classify_spec(mode) && mtime_secs == Some(m.mtime_secs)
                && m.uid.uid == uid && m.gid.gid == gid),
    {
        let name_opt = final_component(path);
        match name_opt {
            None => Err(MetaError::NoFinalComponent),
            Some(name) => match mtime_secs {
                None => Err(MetaError::MissingMtime),
                Some(t) => match FileType::classify(mode) {
                    Err(ClassificationError::UnknownType(w)) => Err(MetaError::UnknownType(w)),
                    Ok(file_type) => Ok(
                        FileMetadata {
                            name,
                            permissions: PermissionsMask::build(mode),
                            size,
                            file_type,
                            mtime_secs: t,
                            uid: Uid { uid },
                            gid: Gid { gid },
                        },
                    ),
                },
            },
        }
    }

    /// Whether this entry is hidden: its name begins with a dot.
    pub fn is_hidden(&self) -> (h: bool)
        ensures
            h == is_hidden_spec(self.name@),
    {
        let n = self.name.as_str();
        if n.unicode_len() == 0 {
            false
        } else {
            n.get_char(0) == '.'
        }
    }

    /// The bare name, used for compact rendering.
    pub fn short_name(&self) -> (n: &String)
        ensures
            n@ == self.name@,
    {
        &self.name
    }

    /// Renders the full metadata line from this entry and the three
    /// collaborator texts (owner, group, date): exactly the line the
    /// specification `line_spec` lays out.
    pub fn rendered_with(&self, owner: &str, group: &str, date: &str) -> (r: String)
        ensures
            r@ == line_spec(*self, owner@, group@, date@),
    {
        let mut r = self.file_type.tag_str().to_owned();
        let perms = self.permissions.render();
        r.append(perms.as_str());
        r.append(" ");
        let size_txt = pad_to(u64_to_string(self.size), 8);
        r.append(size_txt.as_str());
        r.append(" ");
        let owner_txt = pad_to(owner.to_owned(), 8);
        r.append(owner_txt.as_str());
        r.append(" ");
        let group_txt = pad_to(group.to_owned(), 8);
        r.append(group_txt.as_str());
        r.append(" ");
        let date_txt = pad_to(date.to_owned(), 8);
        r.append(date_txt.as_str());
        r.append(" ");
        r.append(self.name.as_str());
        proof {
            reveal_strlit(" ");
            assert(" "@ =~= seq![' ']);
            assert(r@ =~= line_spec(*self, owner@, group@, date@));
        }
        r
    }

    /// The canonical display rendering of this entry. The owner and group
    /// texts come from fresh identity lookups and the date field from the
    /// clock and local calendar, so only the line's shape is pinned here;
    /// `rendered_with` carries the exact contract for given texts.
    pub fn to_text(&self) -> (r: String)
        ensures
            exists|owner: Seq<char>, group: Seq<char>, date: Seq<char>|
                r@ == line_spec(*self, owner, group, date),
    {
        let owner = self.uid.display_string();
        let group = self.gid.display_string();
        let now = now_unix_secs();
        let date = date_field(self.mtime_secs, now);
        let r = self.rendered_with(owner.as_str(), group.as_str(), date.as_str());
        proof {
            assert(r@ == line_spec(*self, owner@, group@, date@));
        }
        r
    }
}

/// Law: whatever the collaborator texts, a rendered line opens with the
/// entry's type tag and its nine permission characters, closes with the
/// entry's bare name, and is never shorter than the fixed columns demand.
pub proof fn lemma_line_shape(
    m: FileMetadata,
    owner: Seq<char>,
    group: Seq<char>,
    date: Seq<char>,
)
    ensures
        line_spec(m, owner, group, date).len() >= 47 + m.name@.len(),
        line_spec(m, owner, group, date)[0] == type_char_spec(m.file_type),
        line_spec(m, owner, group, date).subrange(1, 10) == render_mask_spec(m.permissions.bits),
        line_spec(m, owner, group, date).subrange(
            line_spec(m, owner, group, date).len() - m.name@.len(),
            line_spec(m, owner, group, date).len() as int,
        ) == m.name@,
{
    crate::permissions::lemma_render_mask_shape(m.permissions.bits);
    crate::text::lemma_pad_len(dec_rep(m.size as nat), 8);
    crate::text::lemma_pad_len(owner, 8);
    crate::text::lemma_pad_len(group, 8);
    crate::text::lemma_pad_len(date, 8);
    let line = line_spec(m, owner, group, date);
    assert(line.subrange(1, 10) =~= render_mask_spec(m.permissions.bits));
    assert(line.subrange(line.len() - m.name@.len(), line.len() as int) =~= m.name@);
}

/// Law: rendering is a pure function of the entry's fields and the three
/// collaborator texts — two renderings of the same entry with the same
/// texts are identical, character for character.
pub proof fn lemma_render_deterministic(
    m: FileMetadata,
    owner: Seq<char>,
    group: Seq<char>,
    date: Seq<char>,
    r1: Seq<char>,
    r2: Seq<char>,
)
    requires
        r1 == line_spec(m, owner, group, date),
        r2 == line_spec(m, owner, group, date),
    ensures
        r1 == r2,
{
}

} // verus!
