//! Behavior of the scoped symbol table.

use tinylang::codegen::symbol::ScopedSymbolTable;
use tinylang::type_checker::typed_ast::Type;

#[test]
fn lookup_after_add_returns_value() {
    let mut table: ScopedSymbolTable<Type> = ScopedSymbolTable::new();
    table.add_symbol("x".to_string(), Type::Int).unwrap();
    assert_eq!(table.get_symbol("x"), Some(&Type::Int));
    assert_eq!(table.get_symbol("y"), None);
}

#[test]
fn lookup_returns_innermost_match() {
    let mut table: ScopedSymbolTable<Type> = ScopedSymbolTable::new();
    table.add_symbol("x".to_string(), Type::Int).unwrap();
    table.push_scope();
    table.add_symbol("x".to_string(), Type::Bool).unwrap();
    assert_eq!(table.get_symbol("x"), Some(&Type::Bool));
    table.pop_scope().unwrap();
    assert_eq!(table.get_symbol("x"), Some(&Type::Int));
}

#[test]
fn add_overwrites_within_scope() {
    let mut table: ScopedSymbolTable<Type> = ScopedSymbolTable::new();
    table.add_symbol("x".to_string(), Type::Int).unwrap();
    table.add_symbol("x".to_string(), Type::Char).unwrap();
    assert_eq!(table.get_symbol("x"), Some(&Type::Char));
}

#[test]
fn binding_survives_until_scope_popped() {
    let mut table: ScopedSymbolTable<Type> = ScopedSymbolTable::new();
    table.push_scope();
    table.add_symbol("v".to_string(), Type::UInt8).unwrap();
    table.push_scope();
    assert_eq!(table.get_symbol("v"), Some(&Type::UInt8));
    table.pop_scope().unwrap();
    assert_eq!(table.get_symbol("v"), Some(&Type::UInt8));
    table.pop_scope().unwrap();
    assert_eq!(table.get_symbol("v"), None);
}

#[test]
fn pop_refuses_global_scope() {
    let mut table: ScopedSymbolTable<Type> = ScopedSymbolTable::new();
    assert!(table.pop_scope().is_err());
    table.push_scope();
    assert!(table.pop_scope().is_ok());
    assert!(table.pop_scope().is_err());
}

#[test]
fn push_then_pop_restores_lookups() {
    let mut table: ScopedSymbolTable<Type> = ScopedSymbolTable::new();
    table.add_symbol("a".to_string(), Type::Int64).unwrap();
    table.push_scope();
    table.add_symbol("b".to_string(), Type::Bool).unwrap();
    table.pop_scope().unwrap();
    assert_eq!(table.get_symbol("a"), Some(&Type::Int64));
    assert_eq!(table.get_symbol("b"), None);
}
