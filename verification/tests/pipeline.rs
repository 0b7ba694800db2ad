use compiler::error::{
    CompileError, CompileErrorKind, DriverError, IoError, IoErrorKind, Location, ParseError,
};
use compiler::resolution::{resolve_at, Declarations};
use compiler::source::SourceUnit;
use compiler::util::do_compile_module;
use std::cell::Cell;

/// A syntax tree of the stand-in front end: the module's name, the functions
/// it declares and the functions it calls, each with the offset where it stands.
#[derive(Clone, Debug, PartialEq)]
struct Tree {
    module: String,
    declared: Vec<(String, usize)>,
    called: Vec<(String, usize)>,
}

/// What the stand-in back end emits: the address, the module's name and its functions.
#[derive(Clone, Debug, PartialEq)]
struct Module {
    address: u64,
    name: String,
    functions: Vec<String>,
}

/// For each function, the line of its declaration.
type Lines = Vec<(String, usize)>;

fn load(text: &'static str) -> impl FnOnce(&'static str) -> Result<SourceUnit, IoError> {
    move |name| Ok(SourceUnit::new(name.to_string(), text.to_string()))
}

fn missing(name: &'static str) -> Result<SourceUnit, IoError> {
    Err(IoError { kind: IoErrorKind::NotFound, message: format!("Unable to read file: {:?}", name) })
}

/// Reads `module <addr>::<name> { fun <f>() { <g>() ... } ... }`, as far as
/// these tests need it; unbalanced braces are an error at the place where
/// the text ends or where a brace closes nothing.
fn parse(unit: SourceUnit) -> Result<Tree, ParseError> {
    let text = unit.text();
    let mut depth: usize = 0;
    for (i, c) in text.char_indices() {
        if c == '{' {
            depth += 1;
        } else if c == '}' {
            if depth == 0 {
                return Err(ParseError {
                    location: Location { start: i, end: i + 1 },
                    message: "unmatched closing brace".to_string(),
                });
            }
            depth -= 1;
        }
    }
    if depth != 0 {
        return Err(ParseError {
            location: Location::at(text.len()),
            message: "unclosed brace".to_string(),
        });
    }
    let module = text
        .split("::")
        .nth(1)
        .and_then(|rest| rest.split_whitespace().next())
        .unwrap_or("")
        .to_string();
    let mut declared = Vec::new();
    let mut called = Vec::new();
    let mut at = 0;
    while let Some(found) = text[at..].find("()") {
        let end = at + found;
        let start = text[..end]
            .rfind(|c: char| !c.is_alphanumeric())
            .map(|p| p + 1)
            .unwrap_or(0);
        let name = text[start..end].to_string();
        if text[..start].trim_end().ends_with("fun") {
            declared.push((name, start));
        } else {
            called.push((name, start));
        }
        at = end + 2;
    }
    Ok(Tree { module, declared, called })
}

fn surface<'a>(names: impl Iterator<Item = &'a String>) -> Declarations {
    Declarations::new(names.map(|n| n.as_bytes().to_vec()).collect())
}

/// Resolves every call in the library's lookup order, then emits one function
/// for each declaration, and its line.
fn compile(
    text: &'static str,
) -> impl FnOnce(u64, Tree, &[Module]) -> Result<(Module, Lines), CompileError> {
    move |address, tree, dependencies| {
        let own = surface(tree.declared.iter().map(|(name, _)| name));
        let outside: Vec<Declarations> =
            dependencies.iter().map(|m| surface(m.functions.iter())).collect();
        for (name, offset) in &tree.called {
            let call_site = Location { start: *offset, end: *offset + name.len() };
            resolve_at(&own, &outside, name.as_bytes(), call_site)?;
        }
        let lines = tree
            .declared
            .iter()
            .map(|(name, offset)| (name.clone(), 1 + text[..*offset].matches('\n').count()))
            .collect();
        let functions = tree.declared.iter().map(|(name, _)| name.clone()).collect();
        Ok((Module { address, name: tree.module.clone(), functions }, lines))
    }
}

#[test]
fn a_module_with_one_function_compiles() {
    let text = "module 0x1::M { fun f() {} }";
    let result = do_compile_module("M.mvir", 1u64, &[][..], load(text), parse, compile(text));
    let expected = Module { address: 1, name: "M".to_string(), functions: vec!["f".to_string()] };
    assert_eq!(result, Ok((expected, vec![("f".to_string(), 1)])));
}

#[test]
fn the_source_map_gives_the_line_of_a_declaration() {
    let text = "module 0x1::M {\n  fun f() {}\n  fun h() {}\n}";
    let result = do_compile_module("M.mvir", 1u64, &[][..], load(text), parse, compile(text));
    let (module, lines) = result.unwrap();
    assert_eq!(module.functions, vec!["f".to_string(), "h".to_string()]);
    assert_eq!(lines, vec![("f".to_string(), 2), ("h".to_string(), 3)]);
}

#[test]
fn an_undeclared_name_is_unresolved_at_the_call() {
    let text = "module 0x1::M { fun f() { g() } }";
    let result = do_compile_module("M.mvir", 1u64, &[][..], load(text), parse, compile(text));
    let call = text.find("g()").unwrap();
    assert_eq!(
        result,
        Err(DriverError::Compile(CompileError {
            kind: CompileErrorKind::UnresolvedName,
            location: Some(Location { start: call, end: call + 1 }),
        }))
    );
}

#[test]
fn a_dependency_that_declares_the_name_resolves_it() {
    let text = "module 0x1::M { fun f() { g() } }";
    let dependency = Module { address: 1, name: "N".to_string(), functions: vec!["g".to_string()] };
    let dependencies = vec![dependency];
    let result =
        do_compile_module("M.mvir", 1u64, &dependencies[..], load(text), parse, compile(text));
    assert!(result.is_ok());
}

#[test]
fn unbalanced_braces_are_a_parse_error_and_nothing_is_compiled() {
    let text = "module 0x1::M { fun f() { }";
    let compiled = Cell::new(0u32);
    let result = do_compile_module(
        "M.mvir",
        1u64,
        &[][..],
        load(text),
        parse,
        |address, tree, dependencies: &[Module]| {
            compiled.set(compiled.get() + 1);
            compile(text)(address, tree, dependencies)
        },
    );
    match result {
        Err(DriverError::Parse(e)) => {
            let last_open = text.rfind('{').unwrap();
            assert!(e.location.at_or_after(&Location::at(last_open)));
            assert_eq!(e.location, Location::at(text.len()));
        }
        other => panic!("expected a parse error, got {:?}", other),
    }
    assert_eq!(compiled.get(), 0);
}

#[test]
fn a_source_that_cannot_be_read_is_an_io_error_and_nothing_else_runs() {
    let parsed = Cell::new(0u32);
    let compiled = Cell::new(0u32);
    let result: Result<(Module, Lines), DriverError> = do_compile_module(
        "absent.mvir",
        1u64,
        &[][..],
        missing,
        |unit| {
            parsed.set(parsed.get() + 1);
            parse(unit)
        },
        |address, tree, dependencies: &[Module]| {
            compiled.set(compiled.get() + 1);
            compile("")(address, tree, dependencies)
        },
    );
    match result {
        Err(DriverError::Io(e)) => {
            assert_eq!(e.kind, IoErrorKind::NotFound);
            assert_eq!(e.message, "Unable to read file: \"absent.mvir\"");
        }
        other => panic!("expected an io error, got {:?}", other),
    }
    assert_eq!((parsed.get(), compiled.get()), (0, 0));
}

#[test]
fn each_stage_runs_once_on_success() {
    let text = "module 0x1::M { fun f() {} }";
    let loaded = Cell::new(0u32);
    let parsed = Cell::new(0u32);
    let compiled = Cell::new(0u32);
    let result = do_compile_module(
        "M.mvir",
        1u64,
        &[][..],
        |name| {
            loaded.set(loaded.get() + 1);
            load(text)(name)
        },
        |unit| {
            parsed.set(parsed.get() + 1);
            parse(unit)
        },
        |address, tree, dependencies: &[Module]| {
            compiled.set(compiled.get() + 1);
            compile(text)(address, tree, dependencies)
        },
    );
    assert!(result.is_ok());
    assert_eq!((loaded.get(), parsed.get(), compiled.get()), (1, 1, 1));
}

#[test]
fn the_same_inputs_give_the_same_result() {
    let text = "module 0x7::Coin { fun mint() {} fun burn() { mint() } }";
    let first = do_compile_module("Coin.mvir", 7u64, &[][..], load(text), parse, compile(text));
    let second = do_compile_module("Coin.mvir", 7u64, &[][..], load(text), parse, compile(text));
    assert_eq!(first, second);
    let (module, _) = first.unwrap();
    assert_eq!(module.address, 7);
    assert_eq!(module.name, "Coin");
}

#[test]
fn the_parser_gets_the_unit_that_the_loader_made() {
    let seen = Cell::new(false);
    let result: Result<(u8, u8), DriverError> = do_compile_module(
        "a.mvir",
        (),
        (),
        |name: &str| Ok(SourceUnit::new(name.to_string(), "text".to_string())),
        |unit: SourceUnit| {
            seen.set(unit.name() == "a.mvir" && unit.text() == "text");
            Ok(5u8)
        },
        |_: (), ast: u8, _: ()| Ok((ast, ast + 1)),
    );
    assert!(seen.get());
    assert_eq!(result, Ok((5, 6)));
}
