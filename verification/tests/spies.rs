use autospy::SpyFunction;

#[test]
fn acceptance_single_multiple_reference_argument_sync_trait() {
    trait TestTrait {
        fn function(&self, argument: &&&str);
    }

    #[derive(Clone)]
    struct TestTraitSpy {
        pub function: SpyFunction<<str as ToOwned>::Owned, ()>,
    }

    impl TestTrait for TestTraitSpy {
        fn function(&self, argument: &&&str) {
            self.function.spy((**argument).to_owned()).unwrap()
        }
    }

    impl Default for TestTraitSpy {
        fn default() -> Self {
            Self { function: SpyFunction::from("function") }
        }
    }

    fn use_test_trait<T: TestTrait>(trait_object: T) {
        trait_object.function(&&"hello");
    }

    let spy = TestTraitSpy::default();
    spy.function.returns.set(vec![()]);

    use_test_trait(spy.clone());

    assert_eq!(vec!["hello".to_string()], spy.function.arguments.take())
}

#[test]
fn single_static_impl_argument_sync_trait() {
    trait TestTrait {
        fn function(&self, argument: impl ToString + 'static);
    }

    #[derive(Clone)]
    struct TestTraitSpy {
        pub function: SpyFunction<Box<dyn ToString + 'static>, ()>,
    }

    impl TestTrait for TestTraitSpy {
        fn function(&self, argument: impl ToString + 'static) {
            self.function.spy(Box::new(argument)).unwrap()
        }
    }

    impl Default for TestTraitSpy {
        fn default() -> Self {
            Self { function: SpyFunction::from("function") }
        }
    }

    fn use_test_trait<T: TestTrait>(trait_object: T) {
        trait_object.function("hello");
    }

    let spy = TestTraitSpy::default();
    spy.function.returns.set(vec![()]);

    use_test_trait(spy.clone());

    assert_eq!("hello", spy.function.arguments.take()[0].to_string())
}

#[test]
fn acceptance_mutliple_owned_argument_sync_trait() {
    trait TestTrait {
        fn function(&self, argument1: String, argument2: String);
    }

    #[derive(Clone)]
    struct TestTraitSpy {
        pub function: SpyFunction<(String, String), ()>,
    }

    impl TestTrait for TestTraitSpy {
        fn function(&self, argument1: String, argument2: String) {
            self.function.spy((argument1, argument2)).unwrap()
        }
    }

    impl Default for TestTraitSpy {
        fn default() -> Self {
            Self { function: SpyFunction::from("function") }
        }
    }

    fn use_test_trait<T: TestTrait>(trait_object: T) {
        trait_object.function("hello1".to_string(), "hello2".to_string());
    }

    let spy = TestTraitSpy::default();
    spy.function.returns.set(vec![()]);

    use_test_trait(spy.clone());

    assert_eq!(vec![("hello1".to_string(), "hello2".to_string())], spy.function.arguments.take())
}

#[test]
fn acceptance_multiple_borrowed_argument_sync_trait() {
    trait TestTrait {
        fn function(&self, argument1: &str, argument2: &str);
    }

    #[derive(Clone)]
    struct TestTraitSpy {
        pub function: SpyFunction<(<str as ToOwned>::Owned, <str as ToOwned>::Owned), ()>,
    }

    impl TestTrait for TestTraitSpy {
        fn function(&self, argument1: &str, argument2: &str) {
            self.function.spy((argument1.to_owned(), argument2.to_owned())).unwrap()
        }
    }

    impl Default for TestTraitSpy {
        fn default() -> Self {
            Self { function: SpyFunction::from("function") }
        }
    }

    fn use_test_trait<T: TestTrait>(trait_object: T) {
        trait_object.function("hello1", "hello2");
    }

    let spy = TestTraitSpy::default();
    spy.function.returns.set(vec![()]);

    use_test_trait(spy.clone());

    assert_eq!(vec![("hello1".to_string(), "hello2".to_string())], spy.function.arguments.take())
}

#[test]
fn acceptance_multiple_multiple_reference_argument_sync_trait() {
    trait TestTrait {
        fn function(&self, argument1: &&&str, argument2: &&&&str);
    }

    #[derive(Clone)]
    struct TestTraitSpy {
        pub function: SpyFunction<(<str as ToOwned>::Owned, <str as ToOwned>::Owned), ()>,
    }

    impl TestTrait for TestTraitSpy {
        fn function(&self, argument1: &&&str, argument2: &&&&str) {
            self.function.spy(((**argument1).to_owned(), (***argument2).to_owned())).unwrap()
        }
    }

    impl Default for TestTraitSpy {
        fn default() -> Self {
            Self { function: SpyFunction::from("function") }
        }
    }

    fn use_test_trait<T: TestTrait>(trait_object: T) {
        trait_object.function(&&"hello1", &&&"hello2");
    }

    let spy = TestTraitSpy::default();
    spy.function.returns.set(vec![()]);

    use_test_trait(spy.clone());

    assert_eq!(vec![("hello1".to_string(), "hello2".to_string())], spy.function.arguments.take())
}

#[test]
fn mutliple_owned_and_static_impl_argument_sync_trait() {
    trait TestTrait {
        fn function(&self, argument1: String, argument2: impl ToString + 'static);
    }

    #[derive(Clone)]
    struct TestTraitSpy {
        pub function: SpyFunction<(String, Box<dyn ToString + 'static>), ()>,
    }

    impl TestTrait for TestTraitSpy {
        fn function(&self, argument1: String, argument2: impl ToString + 'static) {
            self.function.spy((argument1, Box::new(argument2))).unwrap()
        }
    }

    impl Default for TestTraitSpy {
        fn default() -> Self {
            Self { function: SpyFunction::from("function") }
        }
    }

    fn use_test_trait<T: TestTrait>(trait_object: T) {
        trait_object.function("hello1".to_string(), "hello2");
    }

    let spy = TestTraitSpy::default();
    spy.function.returns.set(vec![()]);

    use_test_trait(spy.clone());

    let arguments = &spy.function.arguments.take()[0];

    assert_eq!("hello1", arguments.0);
    assert_eq!("hello2", arguments.1.to_string())
}

#[test]
fn no_arguments_sync_trait_returning_u8() {
    trait TestTrait {
        fn function(&self) -> u8;
    }

    #[derive(Clone)]
    struct TestTraitSpy {
        pub function: SpyFunction<(), u8>,
    }

    impl TestTrait for TestTraitSpy {
        fn function(&self) -> u8 {
            self.function.spy(()).unwrap()
        }
    }

    impl Default for TestTraitSpy {
        fn default() -> Self {
            Self { function: SpyFunction::from("function") }
        }
    }

    fn use_test_trait<T: TestTrait>(trait_object: T) -> u8 {
        trait_object.function()
    }

    let spy = TestTraitSpy::default();
    spy.function.returns.set(vec![0, 1]);

    assert_eq!(use_test_trait(spy.clone()), 0);
    assert_eq!(use_test_trait(spy.clone()), 1);

    assert_eq!(vec![(), ()], spy.function.arguments.take())
}

#[test]
fn single_owned_argument_sync_trait() {
    trait TestTrait {
        fn function(&self, argument: String);
    }

    #[derive(Clone)]
    struct TestTraitSpy {
        pub function: SpyFunction<String, ()>,
    }

    impl TestTrait for TestTraitSpy {
        fn function(&self, argument: String) {
            self.function.spy(argument).unwrap()
        }
    }

    impl Default for TestTraitSpy {
        fn default() -> Self {
            Self { function: SpyFunction::from("function") }
        }
    }

    fn use_test_trait<T: TestTrait>(trait_object: T) {
        trait_object.function("hello".to_string());
    }

    let spy = TestTraitSpy::default();
    spy.function.returns.set(vec![()]);

    use_test_trait(spy.clone());

    assert_eq!(vec!["hello".to_string()], spy.function.arguments.take())
}

#[test]
fn single_borrowed_argument_sync_trait() {
    trait TestTrait {
        fn function(&self, argument: &str);
    }

    #[derive(Clone)]
    struct TestTraitSpy {
        pub function: SpyFunction<<str as ToOwned>::Owned, ()>,
    }

    impl TestTrait for TestTraitSpy {
        fn function(&self, argument: &str) {
            self.function.spy(argument.to_owned()).unwrap()
        }
    }

    impl Default for TestTraitSpy {
        fn default() -> Self {
            Self { function: SpyFunction::from("function") }
        }
    }

    fn use_test_trait<T: TestTrait>(trait_object: T) {
        trait_object.function("hello");
    }

    let spy = TestTraitSpy::default();
    spy.function.returns.set(vec![()]);

    use_test_trait(spy.clone());

    assert_eq!(vec!["hello".to_string()], spy.function.arguments.take())
}

#[test]
fn integration_single_multiple_reference_argument_sync_trait() {
    trait TestTrait {
        fn function(&self, argument: &&&str);
    }

    #[derive(Clone)]
    struct TestTraitSpy {
        pub function: SpyFunction<<str as ToOwned>::Owned, ()>,
    }

    impl TestTrait for TestTraitSpy {
        fn function(&self, argument: &&&str) {
            self.function.spy((**argument).to_owned()).unwrap()
        }
    }

    impl Default for TestTraitSpy {
        fn default() -> Self {
            Self { function: SpyFunction::from("function") }
        }
    }

    fn use_test_trait<T: TestTrait>(trait_object: T) {
        trait_object.function(&&"hello");
    }

    let spy = TestTraitSpy::default();
    spy.function.returns.set(vec![()]);

    use_test_trait(spy.clone());

    assert_eq!(vec!["hello".to_string()], spy.function.arguments.take())
}

#[test]
fn integration_mutliple_owned_argument_sync_trait() {
    trait TestTrait {
        fn function(&self, argument1: String, argument2: String);
    }

    #[derive(Clone)]
    struct TestTraitSpy {
        pub function: SpyFunction<(String, String), ()>,
    }

    impl TestTrait for TestTraitSpy {
        fn function(&self, argument1: String, argument2: String) {
            self.function.spy((argument1, argument2)).unwrap()
        }
    }

    impl Default for TestTraitSpy {
        fn default() -> Self {
            Self { function: SpyFunction::from("function") }
        }
    }

    fn use_test_trait<T: TestTrait>(trait_object: T) {
        trait_object.function("hello1".to_string(), "hello2".to_string());
    }

    let spy = TestTraitSpy::default();
    spy.function.returns.set(vec![()]);

    use_test_trait(spy.clone());

    assert_eq!(vec![("hello1".to_string(), "hello2".to_string())], spy.function.arguments.take())
}

#[test]
fn integration_multiple_borrowed_argument_sync_trait() {
    trait TestTrait {
        fn function(&self, argument1: &str, argument2: &str);
    }

    #[derive(Clone)]
    struct TestTraitSpy {
        pub function: SpyFunction<(<str as ToOwned>::Owned, <str as ToOwned>::Owned), ()>,
    }

    impl TestTrait for TestTraitSpy {
        fn function(&self, argument1: &str, argument2: &str) {
            self.function.spy((argument1.to_owned(), argument2.to_owned())).unwrap()
        }
    }

    impl Default for TestTraitSpy {
        fn default() -> Self {
            Self { function: SpyFunction::from("function") }
        }
    }

    fn use_test_trait<T: TestTrait>(trait_object: T) {
        trait_object.function("hello1", "hello2");
    }

    let spy = TestTraitSpy::default();
    spy.function.returns.set(vec![()]);

    use_test_trait(spy.clone());

    assert_eq!(vec![("hello1".to_string(), "hello2".to_string())], spy.function.arguments.take())
}

#[test]
fn integration_multiple_multiple_reference_argument_sync_trait() {
    trait TestTrait {
        fn function(&self, argument1: &&&str, argument2: &&&&str);
    }

    #[derive(Clone)]
    struct TestTraitSpy {
        pub function: SpyFunction<(<str as ToOwned>::Owned, <str as ToOwned>::Owned), ()>,
    }

    impl TestTrait for TestTraitSpy {
        fn function(&self, argument1: &&&str, argument2: &&&&str) {
            self.function.spy(((**argument1).to_owned(), (***argument2).to_owned())).unwrap()
        }
    }

    impl Default for TestTraitSpy {
        fn default() -> Self {
            Self { function: SpyFunction::from("function") }
        }
    }

    fn use_test_trait<T: TestTrait>(trait_object: T) {
        trait_object.function(&&"hello1", &&&"hello2");
    }

    let spy = TestTraitSpy::default();
    spy.function.returns.set(vec![()]);

    use_test_trait(spy.clone());

    assert_eq!(vec![("hello1".to_string(), "hello2".to_string())], spy.function.arguments.take())
}

#[test]
fn single_function_trait_with_no_arguments_returning_u8() {
    trait TestTrait {
        fn function(&self) -> u8;
    }

    #[derive(Clone)]
    struct TestTraitSpy {
        pub function: SpyFunction<(), u8>,
    }

    impl TestTrait for TestTraitSpy {
        fn function(&self) -> u8 {
            self.function.spy(()).unwrap()
        }
    }

    impl Default for TestTraitSpy {
        fn default() -> Self {
            Self { function: SpyFunction::from("function") }
        }
    }

    fn use_test_trait<T: TestTrait>(trait_object: T) -> u8 {
        trait_object.function()
    }

    let spy = TestTraitSpy::default();
    spy.function.returns.set(vec![0, 1]);

    assert_eq!(use_test_trait(spy.clone()), 0);
    assert_eq!(use_test_trait(spy.clone()), 1);

    assert_eq!(vec![(), ()], spy.function.arguments.take())
}
