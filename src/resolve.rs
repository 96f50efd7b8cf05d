//! Working out a node's slug from its title and namespace, on creation and
//! on update.

use crate::error::Code;
use crate::patch::Patch;
use crate::slug::{
    check_slug, first_invalid, fragment_of, join, join_of, lemma_normalize_prefix, namespace_of,
    normalize, slugify, split, Error, MAX_LEN,
};
use std::borrow::Cow;
use vstd::prelude::*;

verus! {

/// A field of a request that a slug is made from.
#[derive(Clone, Copy, Debug, PartialEq, Eq, Structural)]
pub enum Field {
    /// The namespace of the node.
    Namespace,
    /// The title of the node.
    Title,
}

/// Why a slug could not be made from the fields of a request.
#[derive(Clone, Copy, Debug, PartialEq, Eq, Structural)]
pub enum FieldError {
    /// The field is empty, too long, or holds a character that may not
    /// stand in a slug.
    Invalid(Field, Error),
    /// The namespace does not end in a slash.
    InvalidNamespace,
}

impl FieldError {
    /// The code that this error is reported under.
    pub fn code(&self) -> (r: Code)
        ensures
            r == (if *self matches FieldError::Invalid(_, Error::InvalidChar(_, _)) {
                Code::InvalidSlug
            } else {
                Code::OutOfBounds
            }),
    {
        match self {
            FieldError::Invalid(_, Error::InvalidChar(_, _)) => Code::InvalidSlug,
            _ => Code::OutOfBounds,
        }
    }
}

/// What checking a title gives: its normalization into a fragment, or why it
/// was refused.
pub open spec fn title_result(t: Seq<char>) -> Result<Seq<char>, FieldError> {
    if t.len() == 0 {
        Err(FieldError::Invalid(Field::Title, Error::Empty))
    } else if t.len() > MAX_LEN {
        Err(FieldError::Invalid(Field::Title, Error::Length(t.len() as usize)))
    } else {
        Ok(normalize(t))
    }
}

/// What checking a namespace gives: the namespace itself, or why it was
/// refused.
pub open spec fn namespace_result(ns: Seq<char>) -> Result<Seq<char>, FieldError> {
    if ns.len() == 0 {
        Err(FieldError::Invalid(Field::Namespace, Error::Empty))
    } else if ns.len() > MAX_LEN {
        Err(FieldError::Invalid(Field::Namespace, Error::Length(ns.len() as usize)))
    } else if ns.last() != '/' {
        Err(FieldError::InvalidNamespace)
    } else if first_invalid(ns) >= 0 {
        Err(
            FieldError::Invalid(
                Field::Namespace,
                Error::InvalidChar(ns[first_invalid(ns)], (first_invalid(ns) + 1) as usize),
            ),
        )
    } else {
        Ok(ns)
    }
}

/// The slug of a new node: the title's fragment, after the namespace where
/// a non-empty one is given. The title is checked first.
pub open spec fn created_slug(ns: Option<Seq<char>>, title: Seq<char>) -> Result<
    Seq<char>,
    FieldError,
> {
    match title_result(title) {
        Err(e) => Err(e),
        Ok(f) => match ns {
            Some(n) if n.len() > 0 => match namespace_result(n) {
                Err(e) => Err(e),
                Ok(p) => Ok(p + f),
            },
            _ => Ok(f),
        },
    }
}

/// An empty namespace stands for no namespace.
pub open spec fn empty_as_cleared(ns: Patch<Seq<char>>) -> Patch<Seq<char>> {
    match ns {
        Patch::SetTo(n) => if n.len() == 0 {
            Patch::Cleared
        } else {
            Patch::SetTo(n)
        },
        other => other,
    }
}

/// The new slug of a node whose slug is `current`, after an update of its
/// namespace and title; `None` where neither changes.
pub open spec fn resolved_slug(
    current: Seq<char>,
    ns: Patch<Seq<char>>,
    title: Option<Seq<char>>,
) -> Result<Option<Seq<char>>, FieldError> {
    match (empty_as_cleared(ns), title) {
        (Patch::SetTo(n), Some(t)) => match namespace_result(n) {
            Err(e) => Err(e),
            Ok(p) => match title_result(t) {
                Err(e) => Err(e),
                Ok(f) => Ok(Some(p + f)),
            },
        },
        (Patch::Cleared, Some(t)) => match title_result(t) {
            Err(e) => Err(e),
            Ok(f) => Ok(Some(f)),
        },
        (Patch::SetTo(n), None) => match namespace_result(n) {
            Err(e) => Err(e),
            Ok(p) => Ok(Some(p + fragment_of(current))),
        },
        (Patch::Cleared, None) => Ok(Some(fragment_of(current))),
        (Patch::Untouched, Some(t)) => match title_result(t) {
            Err(e) => Err(e),
            Ok(f) => Ok(Some(join_of(namespace_of(current), f))),
        },
        (Patch::Untouched, None) => Ok(None),
    }
}

/// The view of a patch of a string.
pub open spec fn patch_view(p: Patch<String>) -> Patch<Seq<char>> {
    match p {
        Patch::Untouched => Patch::Untouched,
        Patch::Cleared => Patch::Cleared,
        Patch::SetTo(s) => Patch::SetTo(s@),
    }
}

/// The view of a result that holds a string.
pub open spec fn string_result_view(r: Result<String, FieldError>) -> Result<Seq<char>, FieldError> {
    match r {
        Ok(s) => Ok(s@),
        Err(e) => Err(e),
    }
}

/// The view of a result that may hold a string.
pub open spec fn option_result_view(r: Result<Option<String>, FieldError>) -> Result<
    Option<Seq<char>>,
    FieldError,
> {
    match r {
        Ok(Some(s)) => Ok(Some(s@)),
        Ok(None) => Ok(None),
        Err(e) => Err(e),
    }
}

/// Checks a title and normalizes it into a slug fragment.
pub fn check_title(s: &str) -> (r: Result<String, FieldError>)
    ensures
        string_result_view(r) == title_result(s@),
{
    let n = s.unicode_len();
    if n == 0 {
        return Err(FieldError::Invalid(Field::Title, Error::Empty));
    }
    if n > MAX_LEN {
        return Err(FieldError::Invalid(Field::Title, Error::Length(n)));
    }
    proof {
        lemma_normalize_prefix(s@, s@.len());
    }
    match slugify(s) {
        Ok(Cow::Borrowed(f)) => Ok(String::from_str(f)),
        Ok(Cow::Owned(f)) => Ok(f),
        Err(e) => Err(FieldError::Invalid(Field::Title, e)),
    }
}

/// Checks a namespace: it must not be empty nor over 128 characters, must
/// end in a slash, and must be made of slug characters.
pub fn check_namespace(s: &str) -> (r: Result<&str, FieldError>)
    ensures
        match namespace_result(s@) {
            Ok(_) => r == Ok::<&str, FieldError>(s),
            Err(e) => r == Err::<&str, FieldError>(e),
        },
{
    let n = s.unicode_len();
    if n == 0 {
        return Err(FieldError::Invalid(Field::Namespace, Error::Empty));
    }
    if n > MAX_LEN {
        return Err(FieldError::Invalid(Field::Namespace, Error::Length(n)));
    }
    if s.get_char(n - 1) != '/' {
        return Err(FieldError::InvalidNamespace);
    }
    match check_slug(s) {
        Ok(t) => Ok(t),
        Err(e) => Err(FieldError::Invalid(Field::Namespace, e)),
    }
}

/// The slug of a new node, from its namespace, if any, and its title.
///
/// An empty namespace counts as none.
pub fn create_slug(namespace: Option<&str>, title: &str) -> (r: Result<String, FieldError>)
    ensures
        string_result_view(r) == created_slug(namespace.deep_view(), title@),
{
    let fragment = check_title(title)?;
    match namespace {
        Some(ns) if !ns.is_empty() => {
            let ns = check_namespace(ns)?;
            Ok(String::from_str(ns).concat(fragment.as_str()))
        },
        _ => Ok(fragment),
    }
}

/// Works out the new slug of a node whose slug is `current`, after an update
/// of its namespace and its title.
///
/// Gives `None` where neither changes. A namespace set to the empty string
/// counts as one that is removed.
pub fn resolve_slug(current: &str, namespace: Patch<String>, title: Option<&str>) -> (r: Result<
    Option<String>,
    FieldError,
>)
    ensures
        option_result_view(r) == resolved_slug(current@, patch_view(namespace), title.deep_view()),
{
    let namespace = match namespace {
        Patch::SetTo(ns) if ns.as_str().is_empty() => Patch::Cleared,
        other => other,
    };
    match (namespace, title) {
        (Patch::SetTo(ns), Some(t)) => {
            let ns = check_namespace(ns.as_str())?;
            let fragment = check_title(t)?;
            Ok(Some(String::from_str(ns).concat(fragment.as_str())))
        },
        (Patch::Cleared, Some(t)) => {
            let fragment = check_title(t)?;
            Ok(Some(fragment))
        },
        (Patch::SetTo(ns), None) => {
            let ns = check_namespace(ns.as_str())?;
            let (_, fragment) = split(current);
            Ok(Some(String::from_str(ns).concat(fragment)))
        },
        (Patch::Cleared, None) => {
            let (_, fragment) = split(current);
            Ok(Some(String::from_str(fragment)))
        },
        (Patch::Untouched, Some(t)) => {
            let fragment = check_title(t)?;
            let (prefix, _) = split(current);
            Ok(Some(join(prefix, fragment.as_str())))
        },
        (Patch::Untouched, None) => Ok(None),
    }
}

/// An update that touches neither the namespace nor the title leaves the slug
/// as it is, whatever it is.
pub proof fn lemma_untouched_keeps_slug(current: Seq<char>)
    ensures
        resolved_slug(current, Patch::Untouched, None) == Ok::<Option<Seq<char>>, FieldError>(None),
{
}

} // verus!
