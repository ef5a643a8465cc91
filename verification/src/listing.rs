//! The listing engine: the display policy and the rendering of one
//! target's surviving entries.
//!
//! Enumeration itself is the collaborator's job; this module takes the
//! entries that were built for one target, drops the ones the policy
//! hides, and renders the rest — bare names joined by spaces, or one full
//! metadata line per entry.

use vstd::prelude::*;
use vstd::string::StringExecFns;
use crate::filemeta::{is_hidden_spec, line_spec, FileMetadata};

verus! {

/// The color mode a listing was asked for. Parsed from text; accepted but
/// not consumed by rendering here — a knob reserved for a coloring layer.
#[derive(Clone, Copy, Debug, PartialEq, Eq, Structural)]
pub enum ColorOption {
    Never,
    Auto,
    Always,
}

/// Configuration failure: the color mode text is not one of the accepted
/// words. Reported before any listing begins, never silently defaulted.
#[derive(Clone, Copy, Debug, PartialEq, Eq, Structural)]
pub enum ConfigError {
    UnknownColor,
}

/// What parsing a color mode text yields.
pub open spec fn color_spec(s: Seq<char>) -> Result<ColorOption, ConfigError> {
    if s == "never"@ {
        Ok(ColorOption::Never)
    } else if s == "auto"@ {
        Ok(ColorOption::Auto)
    } else if s == "always"@ {
        Ok(ColorOption::Always)
    } else {
        Err(ConfigError::UnknownColor)
    }
}

impl ColorOption {
    /// Parses a color mode from text: exactly the words `never`, `auto`
    /// and `always` are accepted; anything else is a configuration
    /// failure.
    pub fn from_text(s: &str) -> (r: Result<ColorOption, ConfigError>)
        ensures
            r == color_spec(s@),
    {
        let t: String = s.to_owned();
        if t == String::from_str("never") {
            Ok(ColorOption::Never)
        } else if t == String::from_str("auto") {
            Ok(ColorOption::Auto)
        } else if t == String::from_str("always") {
            Ok(ColorOption::Always)
        } else {
            Err(ConfigError::UnknownColor)
        }
    }
}

/// The immutable display policy for one invocation: whether hidden entries
/// are shown, whether the long format is used, and the color mode.
#[derive(Clone, Copy, Debug, PartialEq, Eq, Structural)]
pub struct DisplayFormat {
    pub show_hidden: bool,
    pub long_display: bool,
    pub color: ColorOption,
}

/// An entry survives the policy when it is not hidden or hidden entries
/// are shown.
pub open spec fn should_display_spec(fmt: DisplayFormat, m: FileMetadata) -> bool {
    !is_hidden_spec(m.name@) || fmt.show_hidden
}

/// The policy's filter, as a predicate on entries.
pub open spec fn display_pred(fmt: DisplayFormat) -> spec_fn(FileMetadata) -> bool {
    |m: FileMetadata| should_display_spec(fmt, m)
}

/// The entries of a listing that survive the policy, in enumeration order.
pub open spec fn selected_spec(entries: Seq<FileMetadata>, fmt: DisplayFormat) -> Seq<
    FileMetadata,
> {
    entries.filter(display_pred(fmt))
}

/// Compact output: each name followed by one space, in order.
pub open spec fn short_line_spec(entries: Seq<FileMetadata>) -> Seq<char>
    decreases entries.len(),
{
    if entries.len() == 0 {
        Seq::empty()
    } else {
        short_line_spec(entries.drop_last()) + entries.last().name@ + seq![' ']
    }
}

/// Long output: one full metadata line per entry, each closed by a
/// newline, where `aux` carries the owner, group and date texts of each
/// line in order.
pub open spec fn long_lines_spec(
    entries: Seq<FileMetadata>,
    aux: Seq<(Seq<char>, Seq<char>, Seq<char>)>,
) -> Seq<char>
    recommends
        aux.len() == entries.len(),
    decreases entries.len(),
{
    if entries.len() == 0 {
        Seq::empty()
    } else {
        long_lines_spec(entries.drop_last(), aux.drop_last()) + line_spec(
            entries.last(),
            aux.last().0,
            aux.last().1,
            aux.last().2,
        ) + seq!['\n']
    }
}

impl DisplayFormat {
    /// Builds the policy from the collaborator's flags; fails exactly when
    /// the color mode text is unrecognized.
    pub fn build(show_hidden: bool, long_display: bool, color: &str) -> (r: Result<
        DisplayFormat,
        ConfigError,
    >)
        ensures
            r is Ok <==> color_spec(color@) is Ok,
            r matches Ok(f) ==> f.show_hidden == show_hidden && f.long_display == long_display
                && Ok::<ColorOption, ConfigError>(f.color) == color_spec(color@),
            r is Err ==> r == Err::<DisplayFormat, ConfigError>(ConfigError::UnknownColor),
    {
        match ColorOption::from_text(color) {
            Ok(c) => Ok(DisplayFormat { show_hidden, long_display, color: c }),
            Err(e) => Err(e),
        }
    }

    /// Whether the policy lets this entry through.
    pub fn should_display(&self, f: &FileMetadata) -> (b: bool)
        ensures
            b == should_display_spec(*self, *f),
    {
        !f.is_hidden() || self.show_hidden
    }
}

/// Renders one target's entries under the policy: the surviving entries in
/// enumeration order, as space-joined bare names, or — in long format — as
/// one metadata line per entry, each closed by a newline, rendered with
/// the owner, group and date texts the collaborators yielded.
pub fn render_target(entries: &Vec<FileMetadata>, fmt: &DisplayFormat) -> (out: String)
    ensures
        !fmt.long_display ==> out@ == short_line_spec(selected_spec(entries@, *fmt)),
        fmt.long_display ==> exists|aux: Seq<(Seq<char>, Seq<char>, Seq<char>)>|
            aux.len() == selected_spec(entries@, *fmt).len() && out@ == long_lines_spec(
                selected_spec(entries@, *fmt),
                aux,
            ),
{
    let mut out = String::new();
    let ghost mut aux: Seq<(Seq<char>, Seq<char>, Seq<char>)> = Seq::empty();
    let n = entries.len();
    let mut i: usize = 0;
    while i < n
        invariant
            i <= n,
            n == entries@.len(),
            fmt.long_display ==> aux.len() == entries@.take(i as int).filter(
                display_pred(*fmt),
            ).len(),
            fmt.long_display ==> out@ == long_lines_spec(
                entries@.take(i as int).filter(display_pred(*fmt)),
                aux,
            ),
            !fmt.long_display ==> out@ == short_line_spec(
                entries@.take(i as int).filter(display_pred(*fmt)),
            ),
        decreases n - i,
    {
        let ghost pre = entries@.take(i as int).filter(display_pred(*fmt));
        proof {
            reveal(Seq::filter);
            assert(entries@.take(i + 1).drop_last() =~= entries@.take(i as int));
            assert(entries@.take(i + 1).last() == entries@[i as int]);
        }
        let e = &entries[i];
        if fmt.should_display(e) {
            proof {
                assert(entries@.take(i + 1).filter(display_pred(*fmt)) == pre.push(
                    entries@[i as int],
                ));
            }
            if fmt.long_display {
                let line = e.to_text();
                out.append(line.as_str());
                out.append("\n");
                proof {
                    let (o, g, d): (Seq<char>, Seq<char>, Seq<char>) = choose|
                        o: Seq<char>,
                        g: Seq<char>,
                        d: Seq<char>,
                    | line@ == line_spec(entries@[i as int], o, g, d);
                    let aux0 = aux;
                    aux = aux.push((o, g, d));
                    reveal_strlit("\n");
                    assert("\n"@ =~= seq!['\n']);
                    let sel1 = pre.push(entries@[i as int]);
                    assert(sel1.drop_last() =~= pre);
                    assert(aux.drop_last() =~= aux0);
                    assert(long_lines_spec(sel1, aux) == long_lines_spec(pre, aux0) + line_spec(
                        entries@[i as int],
                        o,
                        g,
                        d,
                    ) + seq!['\n']);
                    assert(out@ =~= long_lines_spec(sel1, aux));
                }
            } else {
                out.append(e.short_name().as_str());
                out.append(" ");
                proof {
                    reveal_strlit(" ");
                    assert(" "@ =~= seq![' ']);
                    assert(pre.push(entries@[i as int]).drop_last() =~= pre);
                    assert(out@ =~= short_line_spec(
                        entries@.take(i + 1).filter(display_pred(*fmt)),
                    ));
                }
            }
        } else {
            proof {
                assert(entries@.take(i + 1).filter(display_pred(*fmt)) == pre);
            }
        }
        i = i + 1;
    }
    proof {
        assert(entries@.take(n as int) =~= entries@);
        if fmt.long_display {
            assert(aux.len() == selected_spec(entries@, *fmt).len() && out@ == long_lines_spec(
                selected_spec(entries@, *fmt),
                aux,
            ));
        }
    }
    out
}

} // verus!
