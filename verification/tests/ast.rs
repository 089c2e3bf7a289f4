//! The AST's own values: ranges and copies.

use dsl_sql::parse::ast::{Expr, Projection, SelectStmt, TableRef};
use dsl_sql::parse::dialect::Dialect;
use dsl_sql::parse::range::TextRange;

#[test]
fn ranges() {
    let r = TextRange::new(3, 10);
    assert_eq!((r.start(), r.end(), r.len()), (3, 10, 7));
    let u = TextRange::up_to(5);
    assert_eq!((u.start(), u.end()), (0, 5));
    assert_eq!(TextRange::empty().len(), 0);
    assert_eq!(TextRange::default(), TextRange::empty());
}

#[test]
fn defaults() {
    assert_eq!(Dialect::default(), Dialect::Postgres);
    let t = TableRef::default();
    assert!(t.schema.is_none() && t.name.is_empty() && t.alias.is_none());
    assert_eq!(t.range, TextRange::empty());
}

#[test]
fn expressions_copy_deeply() {
    let e = Expr::BinaryOp {
        op: "=".to_string(),
        left: Box::new(Expr::Column { qualifier: Some("t".to_string()), name: "a".to_string(), range: TextRange::new(1, 4) }),
        right: Box::new(Expr::Call {
            name: "f".to_string(),
            args: vec![Expr::Literal("1".to_string()), Expr::List(vec![Expr::Other("x".to_string())])],
        }),
    };
    let c = e.clone();
    assert_eq!(format!("{e:?}"), format!("{c:?}"));
    let s = SelectStmt {
        projections: vec![Projection::Expr { expr: c, alias: None }, Projection::Star],
        ..Default::default()
    };
    assert_eq!(format!("{s:?}"), format!("{:?}", s.clone()));
}
