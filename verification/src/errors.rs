//! The error value types and their rendering.
//!
//! Three kinds are distinguished: [`InvalidOperation`] (an operation not
//! permitted in the current context), [`InvalidValue`] (a value failed a
//! check, with optional expected/found context and an optional free-form
//! elaboration), and [`InvalidState`] (a state the system cannot proceed
//! from). All three are plain value types; none of their operations can fail.

use vstd::prelude::*;

verus! {

/// An operation was attempted that is not permitted in the current context.
/// Wraps a static description string; rendering yields exactly that string.
#[derive(Debug, Clone)]
pub struct InvalidOperation(pub &'static str);

impl InvalidOperation {
    /// The rendered message: exactly the stored description.
    pub open spec fn render(self) -> Seq<char> {
        self.0@
    }

    /// Stores the given description; no validation is performed.
    pub fn new(message: &'static str) -> (r: InvalidOperation)
        ensures
            r == (InvalidOperation(message)),
    {
        InvalidOperation(message)
    }

    /// Renders the error as a single-line human-readable message.
    pub fn to_display_string(&self) -> (r: String)
        ensures
            r@ == self.render(),
    {
        self.0.to_owned()
    }
}

/// The system observed an internal or external state it cannot proceed from.
/// Wraps a static description string; rendering yields exactly that string.
#[derive(Debug, Clone)]
pub struct InvalidState(pub &'static str);

impl InvalidState {
    /// The rendered message: exactly the stored description.
    pub open spec fn render(self) -> Seq<char> {
        self.0@
    }

    /// Stores the given description; no validation is performed.
    pub fn new(message: &'static str) -> (r: InvalidState)
        ensures
            r == (InvalidState(message)),
    {
        InvalidState(message)
    }

    /// Renders the error as a single-line human-readable message.
    pub fn to_display_string(&self) -> (r: String)
        ensures
            r@ == self.render(),
    {
        self.0.to_owned()
    }
}

/// The mathematical model of an [`InvalidValue`]: which of the three
/// optional text fields are present, and their character sequences.
pub struct ValueFields {
    pub expected: Option<Seq<char>>,
    pub found: Option<Seq<char>>,
    pub additional_msg: Option<Seq<char>>,
}

/// The message fragment contributed by the `expected` field: the quoted text
/// when present, a fixed placeholder phrase when absent.
pub open spec fn expected_fragment(o: Option<Seq<char>>) -> Seq<char> {
    match o {
        Some(e) => "expected: '"@ + e + "', "@,
        None => "expected value not provided, "@,
    }
}

/// The message fragment contributed by the `found` field: the quoted text
/// when present, a fixed placeholder phrase when absent.
pub open spec fn found_fragment(o: Option<Seq<char>>) -> Seq<char> {
    match o {
        Some(f) => "found: '"@ + f + "'"@,
        None => "found value not provided"@,
    }
}

/// The message fragment contributed by the `additional_msg` field: a comma
/// and the text when present, nothing when absent.
pub open spec fn additional_fragment(o: Option<Seq<char>>) -> Seq<char> {
    match o {
        Some(m) => ", "@ + m,
        None => Seq::<char>::empty(),
    }
}

impl ValueFields {
    /// The state with all three fields absent.
    pub open spec fn empty() -> ValueFields {
        ValueFields { expected: None, found: None, additional_msg: None }
    }

    /// The fields after setting `expected`.
    pub open spec fn with_expected(self, e: Seq<char>) -> ValueFields {
        ValueFields { expected: Some(e), ..self }
    }

    /// The fields after setting `found`.
    pub open spec fn with_found(self, f: Seq<char>) -> ValueFields {
        ValueFields { found: Some(f), ..self }
    }

    /// The fields after setting `additional_msg`.
    pub open spec fn with_additional_msg(self, m: Seq<char>) -> ValueFields {
        ValueFields { additional_msg: Some(m), ..self }
    }

    /// The rendered message: a fixed prefix, then the three fragments
    /// concatenated in fixed order.
    pub open spec fn render(self) -> Seq<char> {
        "invalid value encountered, "@ + expected_fragment(self.expected)
            + found_fragment(self.found) + additional_fragment(self.additional_msg)
    }
}

/// A value failed a check. Carries optional expected/found context plus an
/// optional free-form elaboration, built incrementally via chained `with`
/// calls. Absence of a field renders a fixed placeholder phrase rather than
/// omitting information.
#[derive(Debug, Clone)]
pub struct InvalidValue {
    pub expected: Option<String>,
    pub found: Option<String>,
    pub additional_msg: Option<String>,
}

impl View for InvalidValue {
    type V = ValueFields;

    open spec fn view(&self) -> ValueFields {
        ValueFields {
            expected: match self.expected {
                Some(s) => Some(s@),
                None => None,
            },
            found: match self.found {
                Some(s) => Some(s@),
                None => None,
            },
            additional_msg: match self.additional_msg {
                Some(s) => Some(s@),
                None => None,
            },
        }
    }
}

impl InvalidValue {
    /// Returns an instance with all three fields absent.
    pub fn new() -> (r: InvalidValue)
        ensures
            r@ == ValueFields::empty(),
    {
        InvalidValue { expected: None, found: None, additional_msg: None }
    }

    /// Sets the `expected` field and returns the updated instance for
    /// further chaining.
    pub fn with_expected(self, expected: &str) -> (r: InvalidValue)
        ensures
            r@ == self@.with_expected(expected@),
    {
        InvalidValue { expected: Some(expected.to_owned()), ..self }
    }

    /// Sets the `found` field and returns the updated instance for further
    /// chaining.
    pub fn with_found(self, found: &str) -> (r: InvalidValue)
        ensures
            r@ == self@.with_found(found@),
    {
        InvalidValue { found: Some(found.to_owned()), ..self }
    }

    /// Sets the `additional_msg` field and returns the updated instance for
    /// further chaining.
    pub fn with_additional_msg(self, msg: &str) -> (r: InvalidValue)
        ensures
            r@ == self@.with_additional_msg(msg@),
    {
        InvalidValue { additional_msg: Some(msg.to_owned()), ..self }
    }

    /// Renders the error as a single-line human-readable message, assembled
    /// by concatenation in fixed order. Text embedded in the fields is not
    /// escaped.
    pub fn to_display_string(&self) -> (r: String)
        ensures
            r@ == self@.render(),
    {
        let mut e: String = "invalid value encountered, ".to_owned();
        match &self.expected {
            Some(exp) => {
                e.append("expected: '");
                e.append(exp.as_str());
                e.append("', ");
            },
            None => {
                e.append("expected value not provided, ");
            },
        }
        match &self.found {
            Some(fnd) => {
                e.append("found: '");
                e.append(fnd.as_str());
                e.append("'");
            },
            None => {
                e.append("found value not provided");
            },
        }
        match &self.additional_msg {
            Some(msg) => {
                e.append(", ");
                e.append(msg.as_str());
            },
            None => {},
        }
        proof {
            assert(e@ =~= self@.render());
        }
        e
    }
}

impl Default for InvalidValue {
    /// Equivalent to [`InvalidValue::new`]: all three fields absent.
    fn default() -> (r: InvalidValue)
        ensures
            r@ == ValueFields::empty(),
    {
        InvalidValue::new()
    }
}

/// Law: setter order independence. Setting `expected` and then `found`
/// yields the same fields, and hence the same rendered message, as setting
/// them in the reverse order with the same arguments.
pub proof fn lemma_setter_order_independence(p: ValueFields, e: Seq<char>, f: Seq<char>)
    ensures
        p.with_expected(e).with_found(f) == p.with_found(f).with_expected(e),
        p.with_expected(e).with_found(f).render() == p.with_found(f).with_expected(e).render(),
{
}

/// Law: last-write-wins. Calling the same setter twice leaves only the value
/// of the second call in the fields, and hence in the rendered message.
pub proof fn lemma_setter_last_write_wins(p: ValueFields, a: Seq<char>, b: Seq<char>)
    ensures
        p.with_expected(a).with_expected(b) == p.with_expected(b),
        p.with_found(a).with_found(b) == p.with_found(b),
        p.with_additional_msg(a).with_additional_msg(b) == p.with_additional_msg(b),
{
}

/// Law: an invalid-operation error built from a description renders to
/// exactly that description.
pub proof fn lemma_invalid_operation_renders_description(message: &'static str)
    ensures
        (InvalidOperation(message)).render() == message@,
{
}

/// Law: an invalid-state error built from a description renders to exactly
/// that description.
pub proof fn lemma_invalid_state_renders_description(message: &'static str)
    ensures
        (InvalidState(message)).render() == message@,
{
}

} // verus!
