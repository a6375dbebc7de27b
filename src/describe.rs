//! Composition of the multi-line description text of a document or feature.
//!
//! Both call sites, the document's metadata and each feature, go through
//! [`compose`]: the clauses always come in one fixed order, and a clause whose
//! field is absent contributes nothing.

use vstd::prelude::*;

use crate::source::{copyright_view, opt_view, Copyright, CopyrightText};

verus! {

/// The fields that may contribute to a description.
///
/// The metadata variant fills `creator`, `keywords` and `copyright`; the
/// feature variant fills `comment`, `source` and `kind` instead.
pub struct DescriptionParts {
    pub description: Option<String>,
    pub comment: Option<String>,
    /// The rendered timestamp, if there is one.
    pub time: Option<String>,
    pub creator: Option<String>,
    pub keywords: Option<String>,
    pub copyright: Option<Copyright>,
    pub source: Option<String>,
    pub kind: Option<String>,
}

/// The text of each field of [`DescriptionParts`].
pub struct ClauseText {
    pub description: Option<Seq<char>>,
    pub comment: Option<Seq<char>>,
    pub time: Option<Seq<char>>,
    pub creator: Option<Seq<char>>,
    pub keywords: Option<Seq<char>>,
    pub copyright: Option<CopyrightText>,
    pub source: Option<Seq<char>>,
    pub kind: Option<Seq<char>>,
}

impl View for DescriptionParts {
    type V = ClauseText;

    open spec fn view(&self) -> ClauseText {
        ClauseText {
            description: opt_view(self.description),
            comment: opt_view(self.comment),
            time: opt_view(self.time),
            creator: opt_view(self.creator),
            keywords: opt_view(self.keywords),
            copyright: copyright_view(self.copyright),
            source: opt_view(self.source),
            kind: opt_view(self.kind),
        }
    }
}

/// `prefix`, the field and a newline, or nothing when the field is absent.
pub open spec fn text_line(prefix: Seq<char>, field: Option<Seq<char>>) -> Seq<char> {
    match field {
        Some(s) => prefix + s + "\n"@,
        None => Seq::empty(),
    }
}

/// `prefix` and the field, or nothing when the field is absent.
pub open spec fn text_part(prefix: Seq<char>, field: Option<Seq<char>>) -> Seq<char> {
    match field {
        Some(s) => prefix + s,
        None => Seq::empty(),
    }
}

/// The line `Created <time> by <creator>`, each part only where present; no
/// line when both are absent.
pub open spec fn created_line(time: Option<Seq<char>>, creator: Option<Seq<char>>) -> Seq<char> {
    if time is None && creator is None {
        Seq::empty()
    } else {
        "Created"@ + text_part(" "@, time) + text_part(" by "@, creator) + "\n"@
    }
}

/// Whether a copyright record contributes a line: it must hold at least one
/// of author, year and license.
pub open spec fn copyright_fires(c: Option<CopyrightText>) -> bool {
    match c {
        Some(c) => c.author is Some || c.year is Some || c.license is Some,
        None => false,
    }
}

/// The line `Copyright <author> <year> under <license>`, each part only where
/// present.
pub open spec fn copyright_line(c: Option<CopyrightText>) -> Seq<char> {
    match c {
        Some(r) => if copyright_fires(c) {
            "Copyright"@ + text_part(" "@, r.author) + text_part(" "@, r.year) + text_part(
                " under "@,
                r.license,
            ) + "\n"@
        } else {
            Seq::empty()
        },
        None => Seq::empty(),
    }
}

/// The description text: the clauses that fire, in their fixed order.
pub open spec fn description_text(p: ClauseText) -> Seq<char> {
    text_line(""@, p.description) + text_line(""@, p.comment) + created_line(p.time, p.creator)
        + text_line("Keywords: "@, p.keywords) + copyright_line(p.copyright) + text_line(
        "Source: "@,
        p.source,
    ) + text_line("Type: "@, p.kind)
}

/// Whether at least one clause fires.
pub open spec fn any_clause(p: ClauseText) -> bool {
    p.description is Some || p.comment is Some || p.time is Some || p.creator is Some
        || p.keywords is Some || copyright_fires(p.copyright) || p.source is Some || p.kind is Some
}

/// The description: absent when no clause fires, else the text of the clauses.
pub open spec fn description_of(p: ClauseText) -> Option<Seq<char>> {
    if any_clause(p) {
        Some(description_text(p))
    } else {
        None
    }
}

/// The description text is empty exactly when no clause fires.
pub proof fn lemma_description_empty_iff_silent(p: ClauseText)
    ensures
        (description_text(p).len() == 0) == !any_clause(p),
{
    reveal_strlit("\n");
    if any_clause(p) {
        assert("\n"@.len() == 1);
    }
}

/// Appends `prefix`, `field` and a newline to `text` when `field` is present.
fn push_line(text: &mut String, prefix: &str, field: Option<String>)
    ensures
        final(text)@ == old(text)@ + text_line(prefix@, opt_view(field)),
{
    match field {
        Some(s) => {
            text.append(prefix);
            text.append(s.as_str());
            text.append("\n");
        },
        None => {
            assert(old(text)@ + Seq::<char>::empty() =~= old(text)@);
        },
    }
}

/// Appends `prefix` and `field` to `text` when `field` is present.
fn push_part(text: &mut String, prefix: &str, field: Option<String>)
    ensures
        final(text)@ == old(text)@ + text_part(prefix@, opt_view(field)),
{
    match field {
        Some(s) => {
            text.append(prefix);
            text.append(s.as_str());
        },
        None => {
            assert(old(text)@ + Seq::<char>::empty() =~= old(text)@);
        },
    }
}

/// Appends the `Created` line to `text`.
fn push_created(text: &mut String, time: Option<String>, creator: Option<String>)
    ensures
        final(text)@ == old(text)@ + created_line(opt_view(time), opt_view(creator)),
{
    if time.is_some() || creator.is_some() {
        text.append("Created");
        push_part(text, " ", time);
        push_part(text, " by ", creator);
        text.append("\n");
        assert(final(text)@ =~= old(text)@ + created_line(opt_view(time), opt_view(creator)));
    } else {
        assert(old(text)@ + Seq::<char>::empty() =~= old(text)@);
    }
}

/// Appends the `Copyright` line to `text`.
fn push_copyright(text: &mut String, copyright: Option<Copyright>)
    ensures
        final(text)@ == old(text)@ + copyright_line(copyright_view(copyright)),
{
    match copyright {
        Some(c) => {
            if c.author.is_some() || c.year.is_some() || c.license.is_some() {
                let ghost v = c@;
                text.append("Copyright");
                push_part(text, " ", c.author);
                push_part(text, " ", c.year);
                push_part(text, " under ", c.license);
                text.append("\n");
                assert(final(text)@ =~= old(text)@ + copyright_line(Some(v)));
            } else {
                assert(old(text)@ + Seq::<char>::empty() =~= old(text)@);
            }
        },
        None => {
            assert(old(text)@ + Seq::<char>::empty() =~= old(text)@);
        },
    }
}

/// Builds the description from `parts`: each present field gives its clause,
/// newline-terminated, in the fixed clause order. Absent when no clause fires,
/// never an empty string.
pub fn compose(parts: DescriptionParts) -> (r: Option<String>)
    ensures
        opt_view(r) == description_of(parts@),
        r is None <==> !any_clause(parts@),
        r matches Some(s) ==> s@.len() > 0,
{
    let ghost p = parts@;
    let DescriptionParts { description, comment, time, creator, keywords, copyright, source, kind } =
        parts;
    let mut text = String::new();
    push_line(&mut text, "", description);
    push_line(&mut text, "", comment);
    push_created(&mut text, time, creator);
    push_line(&mut text, "Keywords: ", keywords);
    push_copyright(&mut text, copyright);
    push_line(&mut text, "Source: ", source);
    push_line(&mut text, "Type: ", kind);
    assert(text@ =~= description_text(p));
    proof {
        lemma_description_empty_iff_silent(p);
    }
    if text.as_str().is_empty() {
        None
    } else {
        Some(text)
    }
}

} // verus!
