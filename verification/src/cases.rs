//! Test cases: what a program is fed and what it has to print.
use vstd::prelude::*;

use crate::outside::regex_is_match;
use crate::text::{text_equal, trim};

verus! {

/// What a program has to print to pass a test.
#[derive(Debug)]
pub enum ExpectedOutput {
    /// Exactly this text.
    String(String),
    /// Some text that this expression matches.
    Regex(regex::Regex),
}

impl ExpectedOutput {
    /// The texts that fulfil the expectation.
    pub open spec fn accepts(self, output: Seq<char>) -> bool {
        match self {
            ExpectedOutput::String(s) => s@ == output,
            ExpectedOutput::Regex(re) => crate::outside::regex_matches(re, output),
        }
    }

    /// Tells whether `output` fulfils the expectation.
    pub fn is_valid(&self, output: &str) -> (b: bool)
        ensures
            b == self.accepts(output@),
    {
        match self {
            ExpectedOutput::String(s) => text_equal(s.as_str(), output),
            ExpectedOutput::Regex(re) => regex_is_match(re, output),
        }
    }
}

impl Clone for ExpectedOutput {
    fn clone(&self) -> (r: ExpectedOutput)
        ensures
            r == *self,
    {
        match self {
            ExpectedOutput::String(s) => ExpectedOutput::String(s.clone()),
            ExpectedOutput::Regex(re) => ExpectedOutput::Regex(re.clone()),
        }
    }
}

impl vstd::std_specs::convert::FromSpecImpl<String> for ExpectedOutput {
    open spec fn obeys_from_spec() -> bool {
        true
    }

    open spec fn from_spec(value: String) -> ExpectedOutput {
        ExpectedOutput::String(value)
    }
}

impl From<String> for ExpectedOutput {
    fn from(value: String) -> (r: ExpectedOutput) {
        ExpectedOutput::String(value)
    }
}

impl vstd::std_specs::convert::FromSpecImpl<regex::Regex> for ExpectedOutput {
    open spec fn obeys_from_spec() -> bool {
        true
    }

    open spec fn from_spec(value: regex::Regex) -> ExpectedOutput {
        ExpectedOutput::Regex(value)
    }
}

impl From<regex::Regex> for ExpectedOutput {
    fn from(value: regex::Regex) -> (r: ExpectedOutput) {
        ExpectedOutput::Regex(value)
    }
}

impl vstd::std_specs::convert::FromSpecImpl<&str> for ExpectedOutput {
    open spec fn obeys_from_spec() -> bool {
        false
    }

    open spec fn from_spec(value: &str) -> ExpectedOutput {
        arbitrary()
    }
}

impl From<&str> for ExpectedOutput {
    fn from(value: &str) -> (r: ExpectedOutput)
        ensures
            r matches ExpectedOutput::String(s) && s@ == value@,
    {
        ExpectedOutput::String(value.to_owned())
    }
}

/// Checks an output against an expectation, trimmed first if so asked.
#[derive(Debug)]
pub struct OutputValidator {
    /// Whether white space at the two ends of the output is ignored.
    pub trim_output: bool,
    /// What the output is compared with.
    pub expected_output: ExpectedOutput,
}

impl OutputValidator {
    /// The part of an output that counts.
    pub open spec fn relevant(trim_output: bool, output: Seq<char>) -> Seq<char> {
        if trim_output {
            crate::text::trimmed(output)
        } else {
            output
        }
    }

    /// Tells whether `output` is what was expected.
    pub fn is_valid(&self, output: &str) -> (b: bool)
        ensures
            b == self.expected_output.accepts(
                OutputValidator::relevant(self.trim_output, output@),
            ),
    {
        let output = if self.trim_output {
            trim(output)
        } else {
            output
        };
        self.expected_output.is_valid(output)
    }
}

impl Clone for OutputValidator {
    fn clone(&self) -> (r: OutputValidator)
        ensures
            r == *self,
    {
        OutputValidator {
            trim_output: self.trim_output,
            expected_output: self.expected_output.clone(),
        }
    }
}

impl vstd::std_specs::convert::FromSpecImpl<(bool, ExpectedOutput)> for OutputValidator {
    open spec fn obeys_from_spec() -> bool {
        true
    }

    open spec fn from_spec(value: (bool, ExpectedOutput)) -> OutputValidator {
        OutputValidator { trim_output: value.0, expected_output: value.1 }
    }
}

impl From<(bool, ExpectedOutput)> for OutputValidator {
    fn from(value: (bool, ExpectedOutput)) -> (r: OutputValidator) {
        OutputValidator { trim_output: value.0, expected_output: value.1 }
    }
}

/// A test case, which contains input, output, and some associated data.
#[derive(Debug)]
pub struct TestCase<T = ()> {
    /// What the program reads from its standard input.
    pub input: String,
    /// What the program has to print.
    pub output: ExpectedOutput,
    /// Whatever the author of the test wants to keep with it.
    pub data: T,
}

impl<T> TestCase<T> {
    /// Makes a test case.
    pub fn new<I: Into<String>, O: Into<ExpectedOutput>>(input: I, output: O, data: T) -> (r:
        TestCase<T>)
        ensures
            call_ensures(<I as Into<String>>::into, (input,), r.input),
            call_ensures(<O as Into<ExpectedOutput>>::into, (output,), r.output),
            r.data == data,
    {
        TestCase { input: input.into(), output: output.into(), data }
    }

    /// Retrieve the input value associated with this test case.
    pub fn input(&self) -> (r: &str)
        ensures
            r@ == self.input@,
    {
        self.input.as_str()
    }

    /// Retrieve the expected output for this test case.
    pub fn output(&self) -> (r: &ExpectedOutput)
        ensures
            *r == self.output,
    {
        &self.output
    }

    /// Get the data associated with this test case.
    ///
    /// See also: [`TestCase::into_data`]
    pub fn data(&self) -> (r: &T)
        ensures
            *r == self.data,
    {
        &self.data
    }

    /// Get the owned data associated with this test case.
    ///
    /// See also: [`TestCase::data`]
    pub fn into_data(self) -> (r: T)
        ensures
            r == self.data,
    {
        self.data
    }

    /// A copy of a test case: the same input and expectation, and a clone of the data.
    pub open spec fn copied_to(self, other: TestCase<T>) -> bool where T: Clone {
        &&& other.input == self.input
        &&& other.output == self.output
        &&& cloned(self.data, other.data)
    }
}

impl<T: Clone> Clone for TestCase<T> {
    fn clone(&self) -> (r: TestCase<T>)
        ensures
            self.copied_to(r),
    {
        TestCase { input: self.input.clone(), output: self.output.clone(), data: self.data.clone() }
    }
}

impl<I: Into<String>, O: Into<ExpectedOutput>, T> vstd::std_specs::convert::FromSpecImpl<(I, O, T)> for TestCase<T> {
    open spec fn obeys_from_spec() -> bool {
        false
    }

    open spec fn from_spec(value: (I, O, T)) -> TestCase<T> {
        arbitrary()
    }
}

impl<I: Into<String>, O: Into<ExpectedOutput>, T> From<(I, O, T)> for TestCase<T> {
    fn from(value: (I, O, T)) -> (r: TestCase<T>)
        ensures
            call_ensures(<I as Into<String>>::into, (value.0,), r.input),
            call_ensures(<O as Into<ExpectedOutput>>::into, (value.1,), r.output),
            r.data == value.2,
    {
        TestCase::new(value.0, value.1, value.2)
    }
}

impl<I: Into<String>, O: Into<ExpectedOutput>, T: Default> vstd::std_specs::convert::FromSpecImpl<(I, O)> for TestCase<T> {
    open spec fn obeys_from_spec() -> bool {
        false
    }

    open spec fn from_spec(value: (I, O)) -> TestCase<T> {
        arbitrary()
    }
}

impl<I: Into<String>, O: Into<ExpectedOutput>, T: Default> From<(I, O)> for TestCase<T> {
    fn from(value: (I, O)) -> (r: TestCase<T>)
        ensures
            call_ensures(<I as Into<String>>::into, (value.0,), r.input),
            call_ensures(<O as Into<ExpectedOutput>>::into, (value.1,), r.output),
            call_ensures(T::default, (), r.data),
    {
        TestCase::new(value.0, value.1, T::default())
    }
}

/// An expected string is met by exactly one text: the one with the same characters, at the same
/// positions, and no others.
pub proof fn strings_are_met_only_by_themselves(s: String, output: &str, valid: bool)
    requires
        call_ensures(ExpectedOutput::is_valid, (&ExpectedOutput::String(s), output), valid),
    ensures
        valid <==> s@.len() == output@.len() && forall|i: int|
            0 <= i < s@.len() ==> s@[i] == output@[i],
        ExpectedOutput::String(s).accepts(output@) <==> s@ == output@,
{
    if s@.len() == output@.len() && forall|i: int| 0 <= i < s@.len() ==> s@[i] == output@[i] {
        assert(s@ =~= output@);
    }
}

/// An expected expression is met by exactly the texts that it matches.
pub proof fn expressions_are_met_by_what_they_match(re: regex::Regex, output: &str, valid: bool)
    requires
        call_ensures(ExpectedOutput::is_valid, (&ExpectedOutput::Regex(re), output), valid),
    ensures
        valid <==> crate::outside::regex_matches(re, output@),
        ExpectedOutput::Regex(re).accepts(output@) <==> crate::outside::regex_matches(re, output@),
{
}

/// A validator that trims compares the text without the white space at its two ends, and one that does
/// not trim compares all of it.
pub proof fn validators_trim_exactly_if_asked(
    trim_output: bool,
    expected_output: ExpectedOutput,
    validator: OutputValidator,
    output: &str,
    valid: bool,
)
    requires
        call_ensures(
            <OutputValidator as From<(bool, ExpectedOutput)>>::from,
            ((trim_output, expected_output),),
            validator,
        ),
        call_ensures(OutputValidator::is_valid, (&validator, output), valid),
    ensures
        expected_output matches ExpectedOutput::String(s) ==> {
            &&& trim_output ==> (valid <==> crate::text::trimmed(output@) == s@)
            &&& !trim_output ==> (valid <==> output@ == s@)
        },
        expected_output matches ExpectedOutput::Regex(re) ==> {
            &&& trim_output ==> (valid <==> crate::outside::regex_matches(
                re,
                crate::text::trimmed(output@),
            ))
            &&& !trim_output ==> (valid <==> crate::outside::regex_matches(re, output@))
        },
{
}

/// Whatever an expectation is made from, it expects exactly that.
pub proof fn expectations_are_what_they_are_made_from(
    text: &str,
    from_text: ExpectedOutput,
    string: String,
    from_string: ExpectedOutput,
    re: regex::Regex,
    from_re: ExpectedOutput,
)
    requires
        call_ensures(<ExpectedOutput as From<&str>>::from, (text,), from_text),
        call_ensures(<ExpectedOutput as From<String>>::from, (string,), from_string),
        call_ensures(<ExpectedOutput as From<regex::Regex>>::from, (re,), from_re),
    ensures
        from_text matches ExpectedOutput::String(s) && s@ == text@,
        from_string == ExpectedOutput::String(string),
        from_re == ExpectedOutput::Regex(re),
{
}

/// A test case gives back what it was made from.
pub proof fn cases_give_back_what_they_are_made_from<T>(
    input: &str,
    expected: &str,
    data: T,
    case: TestCase<T>,
    its_input: &str,
    its_output: &ExpectedOutput,
    its_data: &T,
    owned_data: T,
)
    requires
        call_ensures(TestCase::<T>::new::<&str, &str>, (input, expected, data), case) || call_ensures(
            <TestCase<T> as From<(&str, &str, T)>>::from,
            ((input, expected, data),),
            case,
        ),
        call_ensures(TestCase::<T>::input, (&case,), its_input),
        call_ensures(TestCase::<T>::output, (&case,), its_output),
        call_ensures(TestCase::<T>::data, (&case,), its_data),
        call_ensures(TestCase::<T>::into_data, (case,), owned_data),
    ensures
        its_input@ == input@,
        its_output matches ExpectedOutput::String(s) && s@ == expected@,
        *its_data == data,
        owned_data == data,
{
}

/// A copy of a test case has the same input and the same expectation, and a clone of the data.
pub proof fn copies_of_cases_ask_the_same<T: Clone>(case: TestCase<T>, copy: TestCase<T>)
    requires
        call_ensures(<TestCase<T> as Clone>::clone, (&case,), copy),
    ensures
        copy.input == case.input,
        copy.output == case.output,
        cloned(case.data, copy.data),
{
}

/// Copies of expectations and of validators are the same as what they are copies of, and a validator
/// is what it was made from.
pub proof fn copies_of_expectations_are_the_same(
    expected: ExpectedOutput,
    expected_copy: ExpectedOutput,
    validator: OutputValidator,
    validator_copy: OutputValidator,
    trim_output: bool,
    made: OutputValidator,
)
    requires
        call_ensures(<ExpectedOutput as Clone>::clone, (&expected,), expected_copy),
        call_ensures(<OutputValidator as Clone>::clone, (&validator,), validator_copy),
        call_ensures(
            <OutputValidator as From<(bool, ExpectedOutput)>>::from,
            ((trim_output, expected),),
            made,
        ),
    ensures
        expected_copy == expected,
        validator_copy == validator,
        made.trim_output == trim_output,
        made.expected_output == expected,
{
}

/// A test case is made from its three parts, each as it is converted on its own, however it is made.
pub proof fn cases_are_what_they_are_made_from<I: Into<String>, O: Into<ExpectedOutput>, T: Default>(
    input: I,
    output: O,
    data: T,
    case: TestCase<T>,
)
    requires
        call_ensures(TestCase::<T>::new::<I, O>, (input, output, data), case) || call_ensures(
            <TestCase<T> as From<(I, O, T)>>::from,
            ((input, output, data),),
            case,
        ) || call_ensures(<TestCase<T> as From<(I, O)>>::from, ((input, output),), case),
    ensures
        call_ensures(<I as Into<String>>::into, (input,), case.input),
        call_ensures(<O as Into<ExpectedOutput>>::into, (output,), case.output),
        case.data == data || call_ensures(T::default, (), case.data),
        call_ensures(TestCase::<T>::new::<I, O>, (input, output, data), case) ==> case.data == data,
        call_ensures(<TestCase<T> as From<(I, O, T)>>::from, ((input, output, data),), case)
            ==> case.data == data,
        call_ensures(<TestCase<T> as From<(I, O)>>::from, ((input, output),), case)
            ==> call_ensures(T::default, (), case.data),
{
}

} // verus!
