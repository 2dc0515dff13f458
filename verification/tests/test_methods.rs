// The expansion of `#[impl_autoargs]` and `#[autoargs]` on methods: the
// library's output is compared with the expanded code written out below, and
// that code is then run as the calls `add!(...)` and the like expand.

use rust_autoargs::syntax::{expand_autoargs, expand_impl_autoargs};

fn tokens(s: &str) -> String {
    s.parse::<proc_macro2::TokenStream>().unwrap().to_string()
}

// ---- Calculator ----

struct Calculator {
    base_value: i32,
}

impl Calculator {
    fn new(base_value: i32) -> Self {
        Self { base_value }
    }
}

struct AddArgs {
    pub a: i32,
    pub b: i32,
}

impl Default for AddArgs {
    fn default() -> Self {
        Self { a: 0, b: 0 }
    }
}

struct MultiplyArgs {
    pub factor: i32,
}

impl Default for MultiplyArgs {
    fn default() -> Self {
        Self { factor: 1 }
    }
}

struct UpdateArgs {
    pub new_value: i32,
}

impl Default for UpdateArgs {
    fn default() -> Self {
        Self { new_value: 10 }
    }
}

impl Calculator {
    #[allow(unused_parens)]
    fn add(&self, args: AddArgs) -> i32 {
        let (a, b) = (args.a, args.b);
        {
            self.base_value + a + b
        }
    }

    #[allow(unused_parens)]
    fn multiply(&self, args: MultiplyArgs) -> i32 {
        let (factor) = (args.factor);
        {
            self.base_value * factor
        }
    }

    #[allow(unused_parens)]
    fn update(&mut self, args: UpdateArgs) -> i32 {
        let (new_value) = (args.new_value);
        {
            self.base_value = new_value;
            self.base_value
        }
    }
}

const CALCULATOR_IMPL: &str = r#"
impl Calculator {
    #[autoargs]
    fn add(&self, #[default = "0"] a: i32, #[default = "0"] b: i32) -> i32 { self.base_value + a + b }
    #[autoargs]
    fn multiply(&self, #[default = "1"] factor: i32) -> i32 { self.base_value * factor }
    #[autoargs]
    fn update(&mut self, #[default = "10"] new_value: i32) -> i32 { self.base_value = new_value; self.base_value }
}
"#;

const CALCULATOR_ITEMS: &str = r#"
struct AddArgs { pub a: i32, pub b: i32 }
impl Default for AddArgs { fn default() -> Self { Self { a: 0, b: 0 } } }
struct MultiplyArgs { pub factor: i32 }
impl Default for MultiplyArgs { fn default() -> Self { Self { factor: 1 } } }
struct UpdateArgs { pub new_value: i32 }
impl Default for UpdateArgs { fn default() -> Self { Self { new_value: 10 } } }
#[macro_export]
macro_rules! add {
    ($self:expr) => { $self.add(AddArgs::default()) };
    ($self:expr, $( $name:ident = $value:expr ),* $(,)? ) => { { let mut args = AddArgs::default(); $( args.$name = $value; )* $self.add(args) } };
    ($self:expr, $args:expr) => { $self.add($args) };
}
#[macro_export]
macro_rules! multiply {
    ($self:expr) => { $self.multiply(MultiplyArgs::default()) };
    ($self:expr, $( $name:ident = $value:expr ),* $(,)? ) => { { let mut args = MultiplyArgs::default(); $( args.$name = $value; )* $self.multiply(args) } };
    ($self:expr, $args:expr) => { $self.multiply($args) };
}
#[macro_export]
macro_rules! update {
    ($self:expr) => { $self.update(UpdateArgs::default()) };
    ($self:expr, $( $name:ident = $value:expr ),* $(,)? ) => { { let mut args = UpdateArgs::default(); $( args.$name = $value; )* $self.update(args) } };
    ($self:expr, $args:expr) => { $self.update($args) };
}
"#;

// Each method as the `#[autoargs]` attribute receives it, once
// `#[impl_autoargs]` has re-emitted the block.
const CALCULATOR_SOURCES: [&str; 3] = [
    r#"fn add(&self, #[default = "0"] a: i32, #[default = "0"] b: i32) -> i32 { self.base_value + a + b }"#,
    r#"fn multiply(&self, #[default = "1"] factor: i32) -> i32 { self.base_value * factor }"#,
    r#"fn update(&mut self, #[default = "10"] new_value: i32) -> i32 { self.base_value = new_value; self.base_value }"#,
];

const CALCULATOR_METHODS: [&str; 3] = [
    "#[allow(unused_parens)] fn add(&self, args: AddArgs) -> i32 { let (a, b) = (args.a, args.b); { self.base_value + a + b } }",
    "#[allow(unused_parens)] fn multiply(&self, args: MultiplyArgs) -> i32 { let (factor) = (args.factor); { self.base_value * factor } }",
    "#[allow(unused_parens)] fn update(&mut self, args: UpdateArgs) -> i32 { let (new_value) = (args.new_value); { self.base_value = new_value; self.base_value } }",
];

fn check_calculator_expansion() {
    let out = expand_impl_autoargs(CALCULATOR_IMPL);
    assert_eq!(tokens(&out), tokens(&format!("{}{}", CALCULATOR_ITEMS, CALCULATOR_IMPL)));
    for (source, expected) in CALCULATOR_SOURCES.iter().zip(CALCULATOR_METHODS.iter()) {
        assert_eq!(tokens(&expand_autoargs(source)), tokens(expected));
    }
}

#[test]
fn test_method_with_defaults() {
    check_calculator_expansion();
    let calc = Calculator::new(5);
    assert_eq!((&calc).add(AddArgs::default()), 5); // add!(&calc)
    assert_eq!((&calc).multiply(MultiplyArgs::default()), 5); // multiply!(&calc)
}

#[test]
fn test_method_with_custom_args() {
    check_calculator_expansion();
    let calc = Calculator::new(5);
    // add!(&calc, a = 10, b = 15)
    let sum = {
        let mut args = AddArgs::default();
        args.a = 10;
        args.b = 15;
        (&calc).add(args)
    };
    assert_eq!(sum, 30);
    // multiply!(&calc, factor = 4)
    let product = {
        let mut args = MultiplyArgs::default();
        args.factor = 4;
        (&calc).multiply(args)
    };
    assert_eq!(product, 20);
}

#[test]
fn test_method_with_args_struct() {
    check_calculator_expansion();
    let calc = Calculator::new(5);
    let add_args = AddArgs { a: 7, b: 8 };
    assert_eq!((&calc).add(add_args), 20); // add!(&calc, add_args)

    let mult_args = MultiplyArgs { factor: 6 };
    assert_eq!((&calc).multiply(mult_args), 30); // multiply!(&calc, mult_args)
}

#[test]
fn test_mutable_method() {
    check_calculator_expansion();
    let mut calc = Calculator::new(5);
    assert_eq!((&mut calc).update(UpdateArgs::default()), 10); // update!(&mut calc)
    // update!(&mut calc, new_value = 20)
    let updated = {
        let mut args = UpdateArgs::default();
        args.new_value = 20;
        (&mut calc).update(args)
    };
    assert_eq!(updated, 20);
}

// ---- SelfTester ----

struct SelfTester {
    value: String,
}

impl SelfTester {
    fn new(value: &str) -> Self {
        Self { value: value.to_string() }
    }
}

struct RefMethodArgs {
    pub suffix: String,
}

impl Default for RefMethodArgs {
    fn default() -> Self {
        Self { suffix: "default".to_string() }
    }
}

struct MutRefMethodArgs {
    pub append: String,
}

impl Default for MutRefMethodArgs {
    fn default() -> Self {
        Self { append: "suffix".to_string() }
    }
}

struct ConsumeMethodArgs {
    pub uppercase: bool,
}

impl Default for ConsumeMethodArgs {
    fn default() -> Self {
        Self { uppercase: false }
    }
}

impl SelfTester {
    #[allow(unused_parens)]
    fn ref_method(&self, args: RefMethodArgs) -> String {
        let (suffix) = (args.suffix);
        {
            format!("{}-{}", self.value, suffix)
        }
    }

    #[allow(unused_parens)]
    fn mut_ref_method(&mut self, args: MutRefMethodArgs) -> String {
        let (append) = (args.append);
        {
            self.value.push_str(&append);
            self.value.clone()
        }
    }

    #[allow(unused_parens)]
    fn consume_method(self, args: ConsumeMethodArgs) -> String {
        let (uppercase) = (args.uppercase);
        {
            if uppercase {
                self.value.to_uppercase()
            } else {
                self.value
            }
        }
    }
}

const SELF_TESTER_IMPL: &str = r#"
impl SelfTester {
    #[autoargs]
    fn ref_method(&self, #[default = "\"default\".to_string()"] suffix: String) -> String {
        format!("{}-{}", self.value, suffix)
    }
    #[autoargs]
    fn mut_ref_method(&mut self, #[default = "\"suffix\".to_string()"] append: String) -> String {
        self.value.push_str(&append);
        self.value.clone()
    }
    #[autoargs]
    fn consume_method(self, #[default = "false"] uppercase: bool) -> String {
        if uppercase { self.value.to_uppercase() } else { self.value }
    }
}
"#;

const SELF_TESTER_SOURCES: [&str; 3] = [
    r#"fn ref_method(&self, #[default = "\"default\".to_string()"] suffix: String) -> String { format!("{}-{}", self.value, suffix) }"#,
    r#"fn mut_ref_method(&mut self, #[default = "\"suffix\".to_string()"] append: String) -> String { self.value.push_str(&append); self.value.clone() }"#,
    r#"fn consume_method(self, #[default = "false"] uppercase: bool) -> String { if uppercase { self.value.to_uppercase() } else { self.value } }"#,
];

const SELF_TESTER_STRUCTS: [&str; 3] = [
    "struct RefMethodArgs { pub suffix: String } impl Default for RefMethodArgs { fn default() -> Self { Self { suffix: \"default\".to_string() } } }",
    "struct MutRefMethodArgs { pub append: String } impl Default for MutRefMethodArgs { fn default() -> Self { Self { append: \"suffix\".to_string() } } }",
    "struct ConsumeMethodArgs { pub uppercase: bool } impl Default for ConsumeMethodArgs { fn default() -> Self { Self { uppercase: false } } }",
];

const SELF_TESTER_METHODS: [&str; 3] = [
    "#[allow(unused_parens)] fn ref_method(&self, args: RefMethodArgs) -> String { let (suffix) = (args.suffix); { format!(\"{}-{}\", self.value, suffix) } }",
    "#[allow(unused_parens)] fn mut_ref_method(&mut self, args: MutRefMethodArgs) -> String { let (append) = (args.append); { self.value.push_str(&append); self.value.clone() } }",
    "#[allow(unused_parens)] fn consume_method(self, args: ConsumeMethodArgs) -> String { let (uppercase) = (args.uppercase); { if uppercase { self.value.to_uppercase() } else { self.value } } }",
];

#[test]
fn test_different_self_types() {
    let out = tokens(&expand_impl_autoargs(SELF_TESTER_IMPL));
    for st in SELF_TESTER_STRUCTS.iter() {
        assert!(out.contains(&tokens(st)));
    }
    for name in ["ref_method", "mut_ref_method", "consume_method"] {
        assert!(out.contains(&tokens(&format!("macro_rules! {}", name))));
    }
    assert!(out.ends_with(&tokens(SELF_TESTER_IMPL)));
    for (source, expected) in SELF_TESTER_SOURCES.iter().zip(SELF_TESTER_METHODS.iter()) {
        assert_eq!(tokens(&expand_autoargs(source)), tokens(expected));
    }

    let mut tester = SelfTester::new("test");

    // ref_method!(&tester)
    assert_eq!((&tester).ref_method(RefMethodArgs::default()), "test-default");
    // ref_method!(&tester, suffix = "custom".to_string())
    let custom = {
        let mut args = RefMethodArgs::default();
        args.suffix = "custom".to_string();
        (&tester).ref_method(args)
    };
    assert_eq!(custom, "test-custom");

    // mut_ref_method!(&mut tester)
    assert_eq!((&mut tester).mut_ref_method(MutRefMethodArgs::default()), "testsuffix");
    // mut_ref_method!(&mut tester, append = "123".to_string())
    let appended = {
        let mut args = MutRefMethodArgs::default();
        args.append = "123".to_string();
        (&mut tester).mut_ref_method(args)
    };
    assert_eq!(appended, "testsuffix123");

    // consume_method!(tester2)
    let tester2 = SelfTester::new("value");
    assert_eq!(tester2.consume_method(ConsumeMethodArgs::default()), "value"); // default with false

    // consume_method!(tester3, uppercase = true)
    let tester3 = SelfTester::new("value");
    let upper = {
        let mut args = ConsumeMethodArgs::default();
        args.uppercase = true;
        tester3.consume_method(args)
    };
    assert_eq!(upper, "VALUE");
}
