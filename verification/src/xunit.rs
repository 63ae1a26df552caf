//! A miniature test runner: a test case is a pair of functions over tables of
//! named values, and a runner holds the tables that the two work on.

use vstd::hash_map::StringHashMap;
use vstd::prelude::*;

verus! {

/// A value that a test records under a name.
#[derive(Copy, Clone, Debug, PartialEq, Eq, Structural)]
pub enum TestValue {
    Bool(bool),
}

/// A truth value becomes the test value that holds it.
impl From<bool> for TestValue {
    fn from(b: bool) -> (v: TestValue) {
        TestValue::Bool(b)
    }
}

impl vstd::std_specs::convert::FromSpecImpl<bool> for TestValue {
    open spec fn obeys_from_spec() -> bool {
        true
    }

    open spec fn from_spec(b: bool) -> TestValue {
        TestValue::Bool(b)
    }
}

/// A table of test values by name.
pub type TestData = StringHashMap<TestValue>;

/// A test: `setup` fills the fixture, `run` reads the fixture and records its
/// results.
pub struct TestCase<S, F> where S: Fn(&mut TestData) -> (), F: Fn(&TestData, &mut TestData) -> () {
    pub setup: S,
    pub run: F,
}

impl<S, F> TestCase<S, F> where S: Fn(&mut TestData) -> (), F: Fn(&TestData, &mut TestData) -> () {
    /// Whether `setup` may be called on the fixture `fixture`.
    pub open spec fn setup_accepts(&self, fixture: TestData) -> bool {
        forall|d: &mut TestData| *d == fixture ==> #[trigger] call_requires(self.setup, (d, ))
    }

    /// Whether `run` may be called with the fixture `fixture` on the results
    /// `results`.
    pub open spec fn run_accepts(&self, fixture: TestData, results: TestData) -> bool {
        forall|d: &mut TestData|
            *d == results ==> #[trigger] call_requires(self.run, (&fixture, d))
    }
}

/// Runs one test case and keeps what it recorded.
pub struct TestRunner<S, F> where S: Fn(&mut TestData) -> (), F: Fn(&TestData, &mut TestData) -> () {
    test_setup: TestData,
    test_data: TestData,
    test: TestCase<S, F>,
}

impl<S, F> TestRunner<S, F> where
    S: Fn(&mut TestData) -> (),
    F: Fn(&TestData, &mut TestData) -> (),
 {
    /// The table that `setup` fills and `run` reads.
    pub closed spec fn fixture(&self) -> TestData {
        self.test_setup
    }

    /// The table that `run` records into and `get` reads.
    pub closed spec fn results(&self) -> TestData {
        self.test_data
    }

    /// The test case that the runner holds.
    pub closed spec fn case(&self) -> TestCase<S, F> {
        self.test
    }

    /// A runner for `test`, with an empty fixture and no results.
    pub fn new(test: TestCase<S, F>) -> (runner: Self)
        ensures
            runner.case() == test,
            runner.fixture()@ == Map::<Seq<char>, TestValue>::empty(),
            runner.results()@ == Map::<Seq<char>, TestValue>::empty(),
    {
        TestRunner { test_setup: TestData::new(), test_data: TestData::new(), test }
    }

    /// Calls the test's `setup` on the fixture: the fixture changes as one
    /// call of `setup` on it does. The results stay as they are.
    pub fn setup(&mut self)
        requires
            old(self).case().setup_accepts(old(self).fixture()),
        ensures
            final(self).case() == old(self).case(),
            final(self).results() == old(self).results(),
            exists|d: &mut TestData|
                *d == old(self).fixture() && *final(d) == final(self).fixture()
                    && #[trigger] call_ensures(old(self).case().setup, (d, ), ()),
    {
        (self.test.setup)(&mut self.test_setup);
    }

    /// Calls the test's `run` with the fixture on the results: the results
    /// change as one call of `run` on them does. The fixture stays as it is.
    pub fn run(&mut self)
        requires
            old(self).case().run_accepts(old(self).fixture(), old(self).results()),
        ensures
            final(self).case() == old(self).case(),
            final(self).fixture() == old(self).fixture(),
            exists|d: &mut TestData|
                *d == old(self).results() && *final(d) == final(self).results()
                    && #[trigger] call_ensures(old(self).case().run, (&old(self).fixture(), d), ()),
    {
        (self.test.run)(&self.test_setup, &mut self.test_data);
    }

    /// The value recorded under `key`, if there is one.
    pub fn get(&self, key: &str) -> (value: Option<&TestValue>)
        ensures
            self.results()@.contains_key(key@) ==> value == Some(&self.results()@[key@]),
            !self.results()@.contains_key(key@) ==> value is None,
    {
        self.test_data.get(key)
    }
}

} // verus!
