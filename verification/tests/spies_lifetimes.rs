use autospy::SpyFunction;

#[derive(PartialEq, Debug)]
struct MyStruct {
    value: String,
}

struct NonDebugStruct {
    value: String,
}

#[test]
fn trait_with_generic_owned_associated_type_is_supported() {
    trait MyIteratorOwned {
        type Item<'a>
        where
            Self: 'a;

        fn next(&mut self) -> Option<Self::Item<'_>>;
    }

    #[derive(Clone)]
    struct MyIteratorOwnedSpy {
        pub next: SpyFunction<(), Option<String>>,
    }

    impl MyIteratorOwned for MyIteratorOwnedSpy {
        type Item<'a>
            = String
        where
            Self: 'a;

        fn next(&mut self) -> Option<Self::Item<'_>> {
            self.next.spy(()).unwrap()
        }
    }

    impl Default for MyIteratorOwnedSpy {
        fn default() -> Self {
            Self { next: SpyFunction::from("next") }
        }
    }

    fn use_trait_one<T>(trait_object: &mut T) -> Option<String>
    where
        T: for<'a> MyIteratorOwned<Item<'a> = String>,
    {
        trait_object.next()
    }

    let mut spy = MyIteratorOwnedSpy::default();
    spy.next.returns.set(vec![Some("hello".to_string())]);

    assert_eq!(Some("hello".to_string()), use_trait_one(&mut spy));
}

#[test]
fn trait_with_generic_reference_associated_type_is_supported() {
    trait MyIteratorReference {
        type Item<'a>
        where
            Self: 'a;

        fn next(&mut self) -> Option<Self::Item<'_>>;
    }

    #[derive(Clone)]
    struct MyIteratorReferenceSpy<'a> {
        pub next: SpyFunction<(), Option<&'a str>>,
    }

    impl MyIteratorReference for MyIteratorReferenceSpy<'_> {
        type Item<'a>
            = &'a str
        where
            Self: 'a;

        fn next(&mut self) -> Option<Self::Item<'_>> {
            self.next.spy(()).unwrap()
        }
    }

    impl Default for MyIteratorReferenceSpy<'_> {
        fn default() -> Self {
            Self { next: SpyFunction::from("next") }
        }
    }

    fn use_trait_two<T>(trait_object: &mut T) -> Option<&str>
    where
        T: for<'a> MyIteratorReference<Item<'a> = &'a str>,
    {
        trait_object.next()
    }

    let mut spy = MyIteratorReferenceSpy::default();
    spy.next.returns.set(vec![Some("hello")]);

    assert_eq!(Some("hello"), use_trait_two(&mut spy));
}

#[test]
fn trait_functions_can_have_lifetimes() {
    trait MyTrait {
        fn function<'a>(&self, value: &'a str) -> u8;
    }

    #[derive(Clone)]
    struct MyTraitSpy {
        pub function: SpyFunction<<str as ToOwned>::Owned, u8>,
    }

    impl MyTrait for MyTraitSpy {
        fn function<'a>(&self, value: &'a str) -> u8 {
            self.function.spy(value.to_owned()).unwrap()
        }
    }

    impl Default for MyTraitSpy {
        fn default() -> Self {
            Self { function: SpyFunction::from("function") }
        }
    }

    fn use_trait<T: MyTrait>(trait_object: &T) -> u8 {
        trait_object.function("hello")
    }

    let spy = MyTraitSpy::default();
    spy.function.returns.set(vec![10]);

    assert_eq!(10, use_trait(&spy));

    assert_eq!(["hello"], spy.function.arguments);
}

#[test]
fn supports_returning_reference_values_with_trait_lifetime() {
    trait MyTrait<'a> {
        fn function(&self) -> &'a u32;
    }

    #[derive(Clone)]
    struct MyTraitSpy<'a> {
        pub function: SpyFunction<(), &'a u32>,
    }

    impl<'a> MyTrait<'a> for MyTraitSpy<'a> {
        fn function(&self) -> &'a u32 {
            self.function.spy(()).unwrap()
        }
    }

    impl<'a> Default for MyTraitSpy<'a> {
        fn default() -> Self {
            Self { function: SpyFunction::from("function") }
        }
    }

    fn use_trait<'a, T: MyTrait<'a>>(trait_object: T) -> &'a u32 {
        trait_object.function()
    }

    let spy = MyTraitSpy::default();
    spy.function.returns.set(vec![&10]);

    assert_eq!(&10, use_trait(spy));
}

#[test]
fn marker_supertraits_are_supported() {
    trait MyTrait: Unpin {
        fn function(&self);
    }

    #[derive(Clone)]
    struct MyTraitSpy {
        pub function: SpyFunction<(), ()>,
    }

    impl MyTrait for MyTraitSpy {
        fn function(&self) {
            self.function.spy(()).unwrap()
        }
    }

    impl Unpin for MyTraitSpy {}

    impl Default for MyTraitSpy {
        fn default() -> Self {
            Self { function: SpyFunction::from("function") }
        }
    }

    fn use_trait<T: MyTrait>(trait_object: T) {
        trait_object.function();
    }

    let spy = MyTraitSpy::default();
    spy.function.returns.set(vec![()]);

    use_trait(spy);
}

#[test]
fn supports_multiple_functions_returning_references_with_different_lifetimes() {
    trait MyTrait<'a> {
        fn one(&self) -> &MyStruct;
        fn two(&self) -> &'a str;
        fn three(&self) -> &str;
    }

    #[derive(Clone)]
    struct MyTraitSpy<'a, 'spy__> {
        pub one: SpyFunction<(), &'spy__ MyStruct>,
        pub two: SpyFunction<(), &'a str>,
        pub three: SpyFunction<(), &'spy__ str>,
    }

    impl<'a> MyTrait<'a> for MyTraitSpy<'a, '_> {
        fn one(&self) -> &MyStruct {
            self.one.spy(()).unwrap()
        }
        fn two(&self) -> &'a str {
            self.two.spy(()).unwrap()
        }
        fn three(&self) -> &str {
            self.three.spy(()).unwrap()
        }
    }

    impl<'a> Default for MyTraitSpy<'a, '_> {
        fn default() -> Self {
            Self {
                one: SpyFunction::from("one"),
                two: SpyFunction::from("two"),
                three: SpyFunction::from("three"),
            }
        }
    }

    fn use_trait<'a, T: MyTrait<'a>>(trait_object: &T) -> (&MyStruct, &'a str, &str) {
        (trait_object.one(), trait_object.two(), trait_object.three())
    }

    let return_struct = MyStruct { value: "hello".to_string() };

    let spy = MyTraitSpy::default();
    spy.one.returns.set(vec![&return_struct]);
    spy.two.returns.set(vec!["hello"]);
    spy.three.returns.set(vec!["there"]);

    assert_eq!((&MyStruct { value: "hello".to_string() }, "hello", "there"), use_trait(&spy));
}

#[test]
fn multiple_supertraits_are_supported() {
    trait Supertrait {
        fn super_function(&self);
    }

    trait Ultratrait {
        fn ultra_function(&self);
    }

    trait MyTrait: Supertrait + Ultratrait {
        fn function(&self);
    }

    #[derive(Clone)]
    struct MyTraitSpy {
        pub function: SpyFunction<(), ()>,
        pub super_function: SpyFunction<(), ()>,
        pub ultra_function: SpyFunction<(), ()>,
    }

    impl MyTrait for MyTraitSpy {
        fn function(&self) {
            self.function.spy(()).unwrap()
        }
    }

    impl Supertrait for MyTraitSpy {
        fn super_function(&self) {
            self.super_function.spy(()).unwrap()
        }
    }

    impl Ultratrait for MyTraitSpy {
        fn ultra_function(&self) {
            self.ultra_function.spy(()).unwrap()
        }
    }

    impl Default for MyTraitSpy {
        fn default() -> Self {
            Self {
                function: SpyFunction::from("function"),
                super_function: SpyFunction::from("super_function"),
                ultra_function: SpyFunction::from("ultra_function"),
            }
        }
    }

    fn use_trait<T: MyTrait>(trait_object: &T) {
        trait_object.function();
        trait_object.super_function();
        trait_object.ultra_function();
    }

    let spy = MyTraitSpy::default();
    spy.function.returns.set(vec![()]);
    spy.super_function.returns.set(vec![()]);
    spy.ultra_function.returns.set(vec![()]);

    use_trait(&spy);

    assert_eq!(1, spy.function.arguments.take().len());
    assert_eq!(1, spy.super_function.arguments.take().len());
    assert_eq!(1, spy.ultra_function.arguments.take().len());
}

#[test]
fn supports_mutable_reference_arguments() {
    trait MyTrait {
        fn function(&self, argument: &mut u8);
    }

    #[derive(Clone)]
    struct MyTraitSpy {
        pub function: SpyFunction<<u8 as ToOwned>::Owned, ()>,
    }

    impl MyTrait for MyTraitSpy {
        fn function(&self, argument: &mut u8) {
            self.function.spy(argument.to_owned()).unwrap()
        }
    }

    impl Default for MyTraitSpy {
        fn default() -> Self {
            Self { function: SpyFunction::from("function") }
        }
    }

    fn use_trait<T: MyTrait>(trait_object: &T) {
        trait_object.function(&mut 10);
    }

    let spy = MyTraitSpy::default();
    spy.function.returns.set(vec![()]);

    use_trait(&spy);

    assert_eq!([10], spy.function.arguments);
}

#[test]
fn supports_mutable_reference_return_values() {
    trait MyTrait {
        fn function(&mut self) -> &mut u8;
    }

    #[derive(Clone)]
    struct MyTraitSpy<'spy> {
        pub function: SpyFunction<(), &'spy mut u8>,
    }

    impl MyTrait for MyTraitSpy<'_> {
        fn function(&mut self) -> &mut u8 {
            self.function.spy(()).unwrap()
        }
    }

    impl Default for MyTraitSpy<'_> {
        fn default() -> Self {
            Self { function: SpyFunction::from("function") }
        }
    }

    fn use_trait<T: MyTrait>(trait_object: &mut T) -> &mut u8 {
        trait_object.function()
    }

    let mut return_value = 10;
    let mut spy = MyTraitSpy::default();
    spy.function.returns.set(vec![&mut return_value]);

    assert_eq!(11, *use_trait(&mut spy) + 1);
}

#[test]
fn returns_owned_values() {
    trait MyTrait {
        fn function(&self) -> String;
    }

    #[derive(Clone)]
    struct MyTraitSpy {
        pub function: SpyFunction<(), String>,
    }

    impl MyTrait for MyTraitSpy {
        fn function(&self) -> String {
            self.function.spy(()).unwrap()
        }
    }

    impl Default for MyTraitSpy {
        fn default() -> Self {
            Self { function: SpyFunction::from("function") }
        }
    }

    fn use_trait<T: MyTrait>(trait_object: T) -> String {
        trait_object.function()
    }

    let spy = MyTraitSpy::default();
    spy.function.returns.set(vec!["hello!".to_string()]);

    assert_eq!("hello!", use_trait(spy));
}

#[test]
fn supports_reference_return_values() {
    trait MyTrait {
        fn function(&self) -> &str;
    }

    #[derive(Clone)]
    struct MyTraitSpy<'spy> {
        pub function: SpyFunction<(), &'spy str>,
    }

    impl MyTrait for MyTraitSpy<'_> {
        fn function(&self) -> &str {
            self.function.spy(()).unwrap()
        }
    }

    impl Default for MyTraitSpy<'_> {
        fn default() -> Self {
            Self { function: SpyFunction::from("function") }
        }
    }

    fn use_trait<T: MyTrait>(trait_object: &T) -> &str {
        trait_object.function()
    }

    let spy = MyTraitSpy::default();
    spy.function.returns.set(vec!["hello"]);

    assert_eq!("hello", use_trait(&spy));
}

#[test]
fn supports_returning_referenced_structs() {
    trait MyTrait {
        fn function(&self) -> &MyStruct;
    }

    #[derive(Clone)]
    struct MyTraitSpy<'spy> {
        pub function: SpyFunction<(), &'spy MyStruct>,
    }

    impl MyTrait for MyTraitSpy<'_> {
        fn function(&self) -> &MyStruct {
            self.function.spy(()).unwrap()
        }
    }

    impl Default for MyTraitSpy<'_> {
        fn default() -> Self {
            Self { function: SpyFunction::from("function") }
        }
    }

    fn use_trait<T: MyTrait>(trait_object: &T) -> &MyStruct {
        trait_object.function()
    }

    let return_struct = MyStruct { value: "hello".to_string() };

    let spy = MyTraitSpy::default();
    spy.function.returns.set(vec![&return_struct]);

    assert_eq!(&MyStruct { value: "hello".to_string() }, use_trait(&spy))
}

#[test]
fn borrowed_slice_converted_to_owned_vec() {
    trait MyTrait {
        fn function(&self, function: &[u8]);
    }

    #[derive(Clone)]
    struct MyTraitSpy {
        pub function: SpyFunction<<[u8] as ToOwned>::Owned, ()>,
    }

    impl MyTrait for MyTraitSpy {
        fn function(&self, function: &[u8]) {
            self.function.spy(function.to_owned()).unwrap()
        }
    }

    impl Default for MyTraitSpy {
        fn default() -> Self {
            Self { function: SpyFunction::from("function") }
        }
    }

    fn use_test_trait<T: MyTrait>(trait_object: &T) {
        trait_object.function(&[1]);
    }

    let spy = MyTraitSpy::default();
    spy.function.returns.set(vec![()]);

    use_test_trait(&spy);

    assert_eq!([vec![1]], spy.function.arguments);
}

#[test]
fn supports_specializing_function_in_trait() {
    trait MyTrait {
        fn function(&self, argument: u32)
        where
            Self: Sized;
    }

    #[derive(Clone)]
    struct MyTraitSpy {
        pub function: SpyFunction<u32, ()>,
    }

    impl MyTrait for MyTraitSpy {
        fn function(&self, argument: u32)
        where
            Self: Sized,
        {
            self.function.spy(argument).unwrap()
        }
    }

    impl Default for MyTraitSpy {
        fn default() -> Self {
            Self { function: SpyFunction::from("function") }
        }
    }

    fn use_trait<T: MyTrait>(trait_object: &T) {
        trait_object.function(10);
    }

    let spy = MyTraitSpy::default();
    spy.function.returns.set(vec![()]);

    use_trait(&spy);

    assert_eq!([10], spy.function.arguments);
}

#[test]
fn supports_static_reference_return_values() {
    trait MyTrait {
        fn function(&self) -> &'static u32;
    }

    #[derive(Clone)]
    struct MyTraitSpy {
        pub function: SpyFunction<(), &'static u32>,
    }

    impl MyTrait for MyTraitSpy {
        fn function(&self) -> &'static u32 {
            self.function.spy(()).unwrap()
        }
    }

    impl Default for MyTraitSpy {
        fn default() -> Self {
            Self { function: SpyFunction::from("function") }
        }
    }

    fn use_trait<T: MyTrait>(trait_object: T) -> &'static u32 {
        trait_object.function()
    }

    let spy = MyTraitSpy::default();
    spy.function.returns.set(vec![&10]);

    assert_eq!(&10, use_trait(spy));
}

#[test]
fn non_clone_struct_can_be_returned_by_spy() {
    trait MyTrait {
        fn function(&self) -> MyStruct;
    }

    #[derive(Clone)]
    struct MyTraitSpy {
        pub function: SpyFunction<(), MyStruct>,
    }

    impl MyTrait for MyTraitSpy {
        fn function(&self) -> MyStruct {
            self.function.spy(()).unwrap()
        }
    }

    impl Default for MyTraitSpy {
        fn default() -> Self {
            Self { function: SpyFunction::from("function") }
        }
    }

    fn use_trait<T: MyTrait>(trait_object: T) -> MyStruct {
        trait_object.function()
    }

    let spy = MyTraitSpy::default();
    spy.function.returns.set(vec![MyStruct { value: "hello".to_string() }]);

    assert_eq!(MyStruct { value: "hello".to_string() }, use_trait(spy));
}

#[test]
fn non_debug_struct_can_be_returned_by_spy() {
    trait MyTrait2 {
        fn function2(&self) -> NonDebugStruct;
    }

    #[derive(Clone)]
    struct MyTrait2Spy {
        pub function2: SpyFunction<(), NonDebugStruct>,
    }

    impl MyTrait2 for MyTrait2Spy {
        fn function2(&self) -> NonDebugStruct {
            match self.function2.spy(()) {
                Ok(value) => value,
                Err(report) => panic!("{report}"),
            }
        }
    }

    impl Default for MyTrait2Spy {
        fn default() -> Self {
            Self { function2: SpyFunction::from("function2") }
        }
    }

    fn use_trait2<T: MyTrait2>(trait_object: T) -> NonDebugStruct {
        trait_object.function2()
    }

    let spy = MyTrait2Spy::default();
    spy.function2.returns.set(vec![NonDebugStruct { value: "hello".to_string() }]);

    assert_eq!("hello", use_trait2(spy).value);
}

#[test]
fn non_debug_struct_function_argument_captured() {
    trait MyTrait2 {
        fn function(&self, argument: NonDebugStruct);
    }

    #[derive(Clone)]
    struct MyTrait2Spy {
        pub function: SpyFunction<NonDebugStruct, ()>,
    }

    impl MyTrait2 for MyTrait2Spy {
        fn function(&self, argument: NonDebugStruct) {
            self.function.spy(argument).unwrap()
        }
    }

    impl Default for MyTrait2Spy {
        fn default() -> Self {
            Self { function: SpyFunction::from("function") }
        }
    }

    fn use_trait2<T: MyTrait2>(trait_object: T) {
        trait_object.function(NonDebugStruct { value: "hello".to_string() });
    }

    let spy = MyTrait2Spy::default();
    spy.function.returns.set(vec![()]);

    use_trait2(spy.clone());

    assert_eq!("hello", spy.function.arguments.get()[0].value);
}

#[test]
fn supertraits_are_supported() {
    trait Supertrait {
        fn super_function(&self);
    }

    trait MyTrait: Supertrait {
        fn function(&self);
    }

    #[derive(Clone)]
    struct MyTraitSpy {
        pub function: SpyFunction<(), ()>,
        pub super_function: SpyFunction<(), ()>,
    }

    impl MyTrait for MyTraitSpy {
        fn function(&self) {
            self.function.spy(()).unwrap()
        }
    }

    impl Supertrait for MyTraitSpy {
        fn super_function(&self) {
            self.super_function.spy(()).unwrap()
        }
    }

    impl Default for MyTraitSpy {
        fn default() -> Self {
            Self {
                function: SpyFunction::from("function"),
                super_function: SpyFunction::from("super_function"),
            }
        }
    }

    fn use_trait<T: MyTrait>(trait_object: T) {
        trait_object.function();
        trait_object.super_function();
    }

    let spy = MyTraitSpy::default();
    spy.function.returns.set(vec![()]);
    spy.super_function.returns.set(vec![()]);

    use_trait(spy.clone());

    assert_eq!(1, spy.function.arguments.take().len());
    assert_eq!(1, spy.super_function.arguments.take().len());
}

#[test]
fn supertraits_support_ignore_attribute() {
    trait Supertrait {
        fn super_function(&self, captured: String, ignored: String);
    }

    trait MyTrait: Supertrait {
        fn function(&self);
    }

    #[derive(Clone)]
    struct MyTraitSpy {
        pub function: SpyFunction<(), ()>,
        pub super_function: SpyFunction<String, ()>,
    }

    impl MyTrait for MyTraitSpy {
        fn function(&self) {
            self.function.spy(()).unwrap()
        }
    }

    impl Supertrait for MyTraitSpy {
        fn super_function(&self, captured: String, _: String) {
            self.super_function.spy(captured).unwrap()
        }
    }

    impl Default for MyTraitSpy {
        fn default() -> Self {
            Self {
                function: SpyFunction::from("function"),
                super_function: SpyFunction::from("super_function"),
            }
        }
    }

    fn use_trait<T: MyTrait>(trait_object: &T) {
        trait_object.function();
        trait_object.super_function("captured".to_string(), "ignored".to_string());
    }

    let spy = MyTraitSpy::default();
    spy.function.returns.set(vec![()]);
    spy.super_function.returns.set(vec![()]);

    use_trait(&spy);
    assert_eq!(["captured".to_string()], spy.super_function.arguments);
}

#[test]
fn function_marked_with_use_default_is_not_spied() {
    trait TestTrait {
        const VALUE: u64;
        fn function(&self) -> u64 {
            Self::VALUE + 100
        }
    }

    #[derive(Clone)]
    struct TestTraitSpy {}

    impl TestTrait for TestTraitSpy {
        const VALUE: u64 = 20;
        fn function(&self) -> u64 {
            Self::VALUE + 100
        }
    }

    impl Default for TestTraitSpy {
        fn default() -> Self {
            Self {}
        }
    }

    fn use_test_trait<T: TestTrait>(trait_object: T) -> u64 {
        trait_object.function()
    }

    assert_eq!(120, use_test_trait(TestTraitSpy::default()));
}
