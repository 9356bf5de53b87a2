use fractal::lindenmayer::{LindenmayerGenerate, LindenmayerSystem};

#[derive(Clone, Copy, PartialEq, Eq, Debug)]
enum TestABC {
    A,
    B,
    C,
    Foo,
}

struct TestLS;

impl LindenmayerSystem<TestABC> for TestLS {
    fn initial() -> Vec<TestABC> {
        vec![TestABC::A, TestABC::B, TestABC::C]
    }

    fn apply_rule(l: TestABC) -> Vec<TestABC> {
        match l {
            TestABC::A => vec![TestABC::A, TestABC::Foo, TestABC::B, TestABC::C],
            TestABC::B => vec![TestABC::Foo],
            TestABC::C => vec![TestABC::Foo, TestABC::B],
            TestABC::Foo => vec![TestABC::Foo],
        }
    }
}

#[test]
fn test_ls() {
    assert_eq!(TestLS::generate(0), [TestABC::A, TestABC::B, TestABC::C]);
    assert_eq!(
        TestLS::generate(1),
        [
            TestABC::A,
            TestABC::Foo,
            TestABC::B,
            TestABC::C,
            TestABC::Foo,
            TestABC::Foo,
            TestABC::B
        ]
    );
    assert_eq!(
        TestLS::generate(2),
        [
            TestABC::A,
            TestABC::Foo,
            TestABC::B,
            TestABC::C,
            TestABC::Foo,
            TestABC::Foo,
            TestABC::Foo,
            TestABC::B,
            TestABC::Foo,
            TestABC::Foo,
            TestABC::Foo
        ]
    );
    assert_eq!(
        TestLS::generate(3),
        [
            TestABC::A,
            TestABC::Foo,
            TestABC::B,
            TestABC::C,
            TestABC::Foo,
            TestABC::Foo,
            TestABC::Foo,
            TestABC::B,
            TestABC::Foo,
            TestABC::Foo,
            TestABC::Foo,
            TestABC::Foo,
            TestABC::Foo,
            TestABC::Foo,
            TestABC::Foo
        ]
    );
}

#[test]
fn generation_zero_is_initial_unmodified() {
    assert_eq!(TestLS::generate(0), TestLS::initial());
}

#[test]
fn generation_length_is_sum_of_rewrite_lengths() {
    for k in 0..5u64 {
        let current = TestLS::generate(k);
        let expected: usize = current
            .iter()
            .map(|s| TestLS::apply_rule(*s).len())
            .sum();
        assert_eq!(TestLS::generate(k + 1).len(), expected);
    }
}
