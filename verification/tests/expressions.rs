use pidgin::compiler::ast_to_ir::{ASTError, SymbolLedger};
use pidgin::compiler::expressions::Expression;
use pidgin::compiler::parse::{parse_sexp, CantParseTokenError, Token, Tree};
use pidgin::runtime::data::{ExternalFunction, GenericValue, Value};
use pidgin::runtime::host::{FloatOp, Host};

/// Floats by `f64`; no external functions.
struct TestHost;

fn f(bits: u64) -> f64 {
    f64::from_bits(bits)
}

impl Host for TestHost {
    fn float(&self, op: FloatOp) -> u64 {
        match op {
            FloatOp::Add(a, b) => (f(a) + f(b)).to_bits(),
            FloatOp::Subtract(a, b) => (f(a) - f(b)).to_bits(),
            FloatOp::Multiply(a, b) => (f(a) * f(b)).to_bits(),
            FloatOp::Divide(a, b) => (f(a) / f(b)).to_bits(),
            FloatOp::FromInt(i) => (i as f64).to_bits(),
            FloatOp::Floor(a) => f(a).floor() as i64 as u64,
            FloatOp::Ceil(a) => f(a).ceil() as i64 as u64,
            FloatOp::Truncate(a) => f(a) as i64 as u64,
            FloatOp::Sqrt(a) => f(a).sqrt().to_bits(),
            FloatOp::Exp(a) => f(a).exp().to_bits(),
            FloatOp::Exp2(a) => f(a).exp2().to_bits(),
            FloatOp::Ln(a) => f(a).ln().to_bits(),
            FloatOp::Log2(a) => f(a).log2().to_bits(),
        }
    }

    fn parse_float(&self, text: &str) -> Option<u64> {
        text.parse::<f64>().ok().map(|x| x.to_bits())
    }

    fn format_float(&self, bits: u64) -> String {
        f(bits).to_string()
    }

    fn print(&self, text: String) {
        println!("{}", text);
    }

    fn call_external(&self, _function: &ExternalFunction, _args: Vec<Value>) -> Result<Value, u64> {
        Err(0)
    }
}

/// The token tree of `text`.
fn token_tree(text: &str) -> Tree<Token> {
    let reader = |word: String| {
        let reading = TestHost.parse_float(word.as_str());
        Token::from_text(word, reading)
    };
    parse_sexp(text).translate(&reader).unwrap()
}

/// The expression that `text` reads as.
fn read(text: &str, symbol_ledger: &mut SymbolLedger) -> Expression {
    Expression::from_token_tree(token_tree(text), symbol_ledger).unwrap()
}

/// The text of `text` with its functions lifted.
fn lifted_text(text: &str) -> String {
    let mut symbol_ledger = SymbolLedger::default();
    let lifted_expression = read(text, &mut symbol_ledger)
        .lift_lambdas(&vec![], &mut symbol_ledger)
        .unwrap();
    lifted_expression.to_string(&symbol_ledger, &TestHost)
}

#[test]
fn replace_symbol() {
    let mut symbol_ledger = SymbolLedger::default();
    let x_index = symbol_ledger.symbol_index("x".to_string());
    let replaced_expression = read("x", &mut symbol_ledger).replace_symbols(
        &vec![x_index],
        &mut symbol_ledger,
        &mut vec![],
    );
    assert_eq!(replaced_expression.to_string(&symbol_ledger, &TestHost), "__gensym_0")
}

#[test]
fn replace_symbols_ignores_quotes() {
    let mut symbol_ledger = SymbolLedger::default();
    let x_index = symbol_ledger.symbol_index("x".to_string());
    let replaced_expression = read("(x (quote x))", &mut symbol_ledger).replace_symbols(
        &vec![x_index],
        &mut symbol_ledger,
        &mut vec![],
    );
    assert_eq!(
        replaced_expression.to_string(&symbol_ledger, &TestHost),
        "(__gensym_0 (quote x))"
    )
}

#[test]
fn lift_lambdas_leaves_single_function_alone() {
    assert_eq!(lifted_text("(fn (x) (* x x))"), "(fn (x) (* x x))");
}

#[test]
fn lift_single_lambda() {
    assert_eq!(
        lifted_text("(fn (x) (fn (y) (* x y)))"),
        "(fn (x) (partial (fn (__gensym_0 y) (* __gensym_0 y)) x))"
    );
}

#[test]
fn lift_nested_lambda() {
    assert_eq!(
        lifted_text("(fn (x) (fn (y) (fn (z) (* x y z))))"),
        "(fn (x) \
           (partial (fn (__gensym_0 y) \
                      (partial (fn (__gensym_1 __gensym_2 z) \
                                 (* __gensym_1 __gensym_2 z)) \
                               __gensym_0 \
                               y)) \
                    x))"
    );
}

#[test]
fn lambda_lifting_ignores_quotes() {
    assert_eq!(
        lifted_text("(fn (x) (fn (y) (list (quote x) y)))"),
        "(fn (x) (fn (y) (list (quote x) y)))"
    );
}

#[test]
fn replacements_are_reused_and_recorded() {
    let mut symbol_ledger = SymbolLedger::default();
    let x_index = symbol_ledger.symbol_index("x".to_string());
    let y_index = symbol_ledger.symbol_index("y".to_string());
    let mut replacements = vec![];
    let replaced_expression = read("(x y x (fn (z) x))", &mut symbol_ledger).replace_symbols(
        &vec![x_index],
        &mut symbol_ledger,
        &mut replacements,
    );
    assert_eq!(
        replaced_expression.to_string(&symbol_ledger, &TestHost),
        "(__gensym_0 y __gensym_0 (fn (z) __gensym_0))"
    );
    assert_eq!(replacements, vec![(x_index, 3)]);
    assert_ne!(y_index, 3);
}

#[test]
fn generated_symbols_are_new_and_numbered() {
    let mut symbol_ledger = SymbolLedger::default();
    symbol_ledger.symbol_index("a".to_string());
    let first = symbol_ledger.generate_unique_symbol();
    let second = symbol_ledger.generate_unique_symbol();
    assert_eq!(first, 1);
    assert_eq!(second, 2);
    assert_eq!(symbol_ledger.symbol_name(first).unwrap(), "__gensym_0");
    assert_eq!(symbol_ledger.symbol_name(second).unwrap(), "__gensym_1");
    assert_eq!(symbol_ledger.symbol_index("__gensym_1".to_string()), 2);
}

#[test]
fn built_in_symbols_name_core_functions() {
    let mut symbol_ledger = SymbolLedger::default();
    let plus = symbol_ledger.symbol_index("+".to_string());
    let x = symbol_ledger.symbol_index("x".to_string());
    assert!(symbol_ledger.is_built_in(plus));
    assert!(!symbol_ledger.is_built_in(x));
    assert!(!symbol_ledger.is_built_in(7));
}

#[test]
fn expressions_read_literals_and_forms() {
    let mut symbol_ledger = SymbolLedger::default();
    let expression = read("(f 1 -20 \"hi\" nil () (quote (a b)))", &mut symbol_ledger);
    assert_eq!(
        expression.to_string(&symbol_ledger, &TestHost),
        "(f 1 -20 \"hi\" nil [] (quote (a b)))"
    );
    assert_eq!(symbol_ledger.symbol_name(0).unwrap(), "f");
}

#[test]
fn function_arguments_must_be_symbols() {
    let mut symbol_ledger = SymbolLedger::default();
    match Expression::from_token_tree(token_tree("(fn (x 1) x)"), &mut symbol_ledger) {
        Err(ASTError::InvalidFunctionDefintionArgumentName(Expression::Literal(
            GenericValue::Number(_),
        ))) => {},
        other => panic!("unexpected reading: {:?}", other),
    }
}

#[test]
fn function_needs_argument_list() {
    let mut symbol_ledger = SymbolLedger::default();
    match Expression::from_token_tree(token_tree("(fn)"), &mut symbol_ledger) {
        Err(ASTError::InvalidFunctionDefintionArgumentNameList(None)) => {},
        other => panic!("unexpected reading: {:?}", other),
    }
    match Expression::from_token_tree(token_tree("(fn x x)"), &mut symbol_ledger) {
        Err(ASTError::InvalidFunctionDefintionArgumentNameList(Some(Tree::Leaf(Token::Symbol(s)))))
            if s == "x" => {},
        other => panic!("unexpected reading: {:?}", other),
    }
}

#[test]
fn quote_holds_one_expression() {
    let mut symbol_ledger = SymbolLedger::default();
    match Expression::from_token_tree(token_tree("(quote a b)"), &mut symbol_ledger) {
        Err(ASTError::MultipleExpressionsInQuote) => {},
        other => panic!("unexpected reading: {:?}", other),
    }
}

#[test]
fn lifting_reports_unbound_symbol() {
    let mut symbol_ledger = SymbolLedger::default();
    let expression = read("(fn (x) (+ x y))", &mut symbol_ledger);
    match expression.lift_lambdas(&vec![], &mut symbol_ledger) {
        Err(ASTError::UnboundSymbol(name)) => assert_eq!(name, "y"),
        other => panic!("unexpected lifting: {:?}", other),
    }
}

#[test]
fn lifting_keeps_bound_parent_symbols() {
    let mut symbol_ledger = SymbolLedger::default();
    let y = symbol_ledger.symbol_index("y".to_string());
    let expression = read("(fn (x) (+ x y))", &mut symbol_ledger);
    let lifted_expression = expression.lift_lambdas(&vec![y], &mut symbol_ledger).unwrap();
    assert_eq!(
        lifted_expression.to_string(&symbol_ledger, &TestHost),
        "(partial (fn (__gensym_0 x) (+ x __gensym_0)) y)"
    );
}

#[test]
fn compile_error_messages() {
    assert_eq!(
        ASTError::UnboundSymbol("y".to_string()).description(),
        "encountered unbound symbol y"
    );
    assert_eq!(ASTError::EmptyList.description(), "found empty when parsing AST");
    assert_eq!(
        ASTError::FunctionDefinitionMissingBody.description(),
        "no body for function definition"
    );
    assert_eq!(
        ASTError::InvalidFunctionDefintionArgumentNameList(None).description(),
        "invalid argument list for function definition: None"
    );
    assert_eq!(
        ASTError::Parse(CantParseTokenError("\"x".to_string())).description(),
        "failed to parse token: \"\"x\""
    );
    assert_eq!(
        ASTError::MultipleExpressionsInQuote.description(),
        "quote must hold exactly one expression"
    );
    let with_tree = ASTError::InvalidFunctionDefintionArgumentList(Some(Tree::Leaf(Token::Nil)));
    assert_eq!(
        with_tree.description(),
        "invalid argument list for function definition: Some(Leaf(Nil))"
    );
    assert_eq!(
        ASTError::InvalidFunctionDefintionArgument(Tree::Leaf(Token::IntLiteral(3))).description(),
        "invalid argument name for function definition: Leaf(IntLiteral(3))"
    );
    assert_eq!(
        ASTError::InvalidFunctionDefintionArgumentName(Expression::Literal(GenericValue::Nil)).description(),
        "invalid argument name for function definition: Literal(Nil)"
    );
}

#[test]
fn ledger_gives_back_names() {
    let mut symbol_ledger = SymbolLedger::new();
    let a = symbol_ledger.symbol_index("a".to_string());
    let b = symbol_ledger.symbol_index("b".to_string());
    let a_again = symbol_ledger.symbol_index("a".to_string());
    assert_eq!(a, a_again);
    assert_ne!(a, b);
    assert_eq!(symbol_ledger.symbol_name(a).map(|s| s.as_str()), Some("a"));
    assert_eq!(symbol_ledger.symbol_name(b).map(|s| s.as_str()), Some("b"));
    assert_eq!(symbol_ledger.symbol_name(7), None);
}
