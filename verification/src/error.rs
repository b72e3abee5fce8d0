//! Decode failures and the path to the value that caused them.

use vstd::prelude::*;
use vstd::string::StringExecFns;
use crate::json::JsonKind;
use crate::text::{decimal, push_decimal};

verus! {

/// One step on the way from the root of a document to a value in it.
#[derive(Debug, Clone, PartialEq, Eq)]
pub enum Segment {
    /// The member of an object with this name.
    Key(String),
    /// The element of an array at this position.
    Index(usize),
}

/// A `Segment` as a mathematical value.
pub enum Step {
    Key(Seq<char>),
    Index(nat),
}

impl DeepView for Segment {
    type V = Step;

    open spec fn deep_view(&self) -> Step {
        match self {
            Segment::Key(k) => Step::Key(k@),
            Segment::Index(i) => Step::Index(*i as nat),
        }
    }
}

/// Why a document could not be decoded.
#[derive(Debug, Clone, PartialEq, Eq)]
pub enum Cause {
    /// The value is of a JSON kind that its field does not accept, or is a
    /// text that does not spell what the field accepts.
    TypeMismatch(JsonKind),
    /// The value is a whole number that does not fit the field.
    OutOfRange,
    /// The `type` of a cell names no known cell.
    UnknownCellType(String),
    /// A member that must be there is absent; the path ends in its name.
    MissingField,
    /// The text is not JSON; the message is the reader's.
    MalformedDocument(String),
}

/// A `Cause` as a mathematical value.
pub enum Reason {
    TypeMismatch(JsonKind),
    OutOfRange,
    UnknownCellType(Seq<char>),
    MissingField,
    MalformedDocument(Seq<char>),
}

impl DeepView for Cause {
    type V = Reason;

    open spec fn deep_view(&self) -> Reason {
        match self {
            Cause::TypeMismatch(k) => Reason::TypeMismatch(*k),
            Cause::OutOfRange => Reason::OutOfRange,
            Cause::UnknownCellType(t) => Reason::UnknownCellType(t@),
            Cause::MissingField => Reason::MissingField,
            Cause::MalformedDocument(m) => Reason::MalformedDocument(m@),
        }
    }
}

/// A decode failure: where in the document it arose, and why.
#[derive(Debug, Clone, PartialEq, Eq)]
pub struct DecodeError {
    pub path: Vec<Segment>,
    pub cause: Cause,
}

/// A `DecodeError` as a mathematical value.
pub struct Failure {
    pub path: Seq<Step>,
    pub cause: Reason,
}

impl DeepView for DecodeError {
    type V = Failure;

    open spec fn deep_view(&self) -> Failure {
        Failure { path: self.path.deep_view(), cause: self.cause.deep_view() }
    }
}

impl Failure {
    /// A failure at the value itself.
    pub open spec fn here(cause: Reason) -> Failure {
        Failure { path: Seq::empty(), cause }
    }

    /// The same failure, seen from one step further out.
    pub open spec fn under(self, step: Step) -> Failure {
        Failure { path: seq![step] + self.path, cause: self.cause }
    }

    /// The absence of the member `name`.
    pub open spec fn missing(name: Seq<char>) -> Failure {
        Failure { path: seq![Step::Key(name)], cause: Reason::MissingField }
    }
}

/// A result of decoding as a mathematical value.
pub open spec fn outcome<T: DeepView>(r: Result<T, DecodeError>) -> Result<T::V, Failure> {
    match r {
        Ok(v) => Ok(v.deep_view()),
        Err(e) => Err(e.deep_view()),
    }
}

/// The failure of a result, seen from one step further out; a success stays as it is.
pub open spec fn within<T>(step: Step, r: Result<T, Failure>) -> Result<T, Failure> {
    match r {
        Ok(v) => Ok(v),
        Err(f) => Err(f.under(step)),
    }
}

/// The steps of a path written one after the other: names are set apart by
/// a full stop, positions stand in square brackets.
pub open spec fn trail(path: Seq<Step>) -> Seq<char>
    decreases path.len(),
{
    if path.len() == 0 {
        Seq::empty()
    } else {
        let front = path.drop_last();
        match path.last() {
            Step::Key(k) => if front.len() == 0 {
                k
            } else {
                trail(front) + seq!['.'] + k
            },
            Step::Index(i) => trail(front) + seq!['['] + decimal(i) + seq![']'],
        }
    }
}

/// A path as text; the path to the root is a single full stop.
pub open spec fn rendered(path: Seq<Step>) -> Seq<char> {
    if path.len() == 0 {
        seq!['.']
    } else {
        trail(path)
    }
}

impl DecodeError {
    /// A failure at the value itself.
    pub fn here(cause: Cause) -> (r: DecodeError)
        ensures
            r.deep_view() == Failure::here(cause.deep_view()),
    {
        let r = DecodeError { path: Vec::new(), cause };
        assert(r.path.deep_view() =~= Seq::empty());
        r
    }

    /// The absence of the member `name`.
    pub fn missing(name: &str) -> (r: DecodeError)
        ensures
            r.deep_view() == Failure::missing(name@),
    {
        let mut path: Vec<Segment> = Vec::new();
        path.push(Segment::Key(name.to_owned()));
        let r = DecodeError { path, cause: Cause::MissingField };
        assert(r.path.deep_view() =~= seq![Step::Key(name@)]);
        r
    }

    /// The same failure, seen from one step further out.
    pub fn under(self, segment: Segment) -> (r: DecodeError)
        ensures
            r.deep_view() == self.deep_view().under(segment.deep_view()),
    {
        let DecodeError { mut path, cause } = self;
        path.insert(0, segment);
        let r = DecodeError { path, cause };
        assert(r.path.deep_view() =~= seq![segment.deep_view()] + self.path.deep_view());
        r
    }

    /// The same failure, seen from the object that holds the failing value under `name`.
    pub fn under_key(self, name: &str) -> (r: DecodeError)
        ensures
            r.deep_view() == self.deep_view().under(Step::Key(name@)),
    {
        self.under(Segment::Key(name.to_owned()))
    }

    /// The path as text, such as `modules.top.ports.a.bits[0]`.
    pub fn path_string(&self) -> (r: String)
        ensures
            r@ == rendered(self.path.deep_view()),
    {
        let ghost steps = self.path.deep_view();
        if self.path.len() == 0 {
            proof {
                reveal_strlit(".");
            }
            let r = ".".to_owned();
            assert(r@ =~= seq!['.']);
            return r;
        }
        let mut out = String::new();
        let mut i: usize = 0;
        while i < self.path.len()
            invariant
                i <= self.path.len(),
                steps == self.path.deep_view(),
                out@ == trail(steps.take(i as int)),
            decreases self.path.len() - i,
        {
            proof {
                reveal_strlit(".");
                reveal_strlit("[");
                reveal_strlit("]");
                assert(steps.take(i + 1).drop_last() =~= steps.take(i as int));
                assert(steps.take(i + 1).last() == self.path@[i as int].deep_view());
            }
            match &self.path[i] {
                Segment::Key(k) => {
                    if i > 0 {
                        out.append(".");
                    }
                    out.append(k.as_str());
                },
                Segment::Index(n) => {
                    out.append("[");
                    push_decimal(&mut out, *n);
                    out.append("]");
                },
            }
            proof {
                assert(out@ =~= trail(steps.take(i + 1)));
            }
            i += 1;
        }
        proof {
            assert(steps.take(i as int) =~= steps);
        }
        out
    }
}

} // verus!
