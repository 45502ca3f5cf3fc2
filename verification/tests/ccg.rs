use llc_core::ccg::ast::func_call;
use llc_core::ccg::ast::func_def::{self, emit_body, FuncParam};
use llc_core::ccg::ast::node::{AstNode, Expression};
use llc_core::ccg::ast::var_assign;
use llc_core::ccg::ast::var_decl;
use llc_core::ccg::ast::var_declassign;
use llc_core::ccg::file::c_file::CFile;
use llc_core::ccg::file::file_writer::FileWriter;

fn sample_function() -> AstNode {
    let decl = AstNode::VarDeclaration(var_decl::Data {
        type_identifier: "int".to_string(),
        identifier: "i".to_string(),
    });
    let assign = AstNode::VarAssignment(var_assign::Data {
        identifier: "i".to_string(),
        value: Expression::Litteral("2".to_string()),
    });
    let declassign = AstNode::VarDeclAssignment(var_declassign::Data {
        type_identifier: "int".to_string(),
        identifier: "j".to_string(),
        value: Expression::FunctionCall(func_call::Data {
            identifier: "printf".to_string(),
            params: vec![Expression::Variable("i".to_string())],
        }),
    });
    AstNode::FuncDefinition(func_def::Data {
        identifier: "my_func".to_string(),
        type_identifier: "void".to_string(),
        params: vec![
            FuncParam { type_identifier: "char*".to_string(), identifier: "lhs".to_string() },
            FuncParam { type_identifier: "int".to_string(), identifier: "rhs".to_string() },
        ],
        body: vec![decl, assign, declassign],
    })
}

#[test]
fn writer_appends_in_order() {
    let mut writer = FileWriter::new();
    writer.append_str("int").append_space().append(&'x').append(&';');
    assert_eq!(writer.get_content(), "int x;");
    assert_eq!(writer.indentation_lvl, 0);
}

#[test]
fn writer_indents_new_lines() {
    let mut writer = FileWriter::new();
    writer.append_str("a").indent_right().indent_right().append_line().append_str("b");
    writer.indent_left().append_line().append_str("c");
    writer.indent_left().indent_left().append_line().append_str("d");
    assert_eq!(writer.get_content(), "a\n\t\tb\n\tc\nd");
    assert_eq!(writer.indentation_lvl, 0);
}

#[test]
fn function_definition_is_written_with_its_body() {
    let file = CFile { nodes: vec![sample_function()] };
    assert_eq!(
        file.render(),
        "void my_func(char* lhs, int rhs)\n{\n\tint i;\n\ti = 2;\n\tint j = printf(i);\n}\n"
    );
}

#[test]
fn nested_definition_is_indented_one_level_more() {
    let inner = AstNode::FuncDefinition(func_def::Data {
        identifier: "inner".to_string(),
        type_identifier: "int".to_string(),
        params: vec![],
        body: vec![AstNode::VarDeclaration(var_decl::Data {
            type_identifier: "int".to_string(),
            identifier: "k".to_string(),
        })],
    });
    let outer = AstNode::FuncDefinition(func_def::Data {
        identifier: "outer".to_string(),
        type_identifier: "void".to_string(),
        params: vec![],
        body: vec![inner],
    });
    let mut writer = FileWriter::new();
    outer.emit(&mut writer);
    assert_eq!(writer.get_content(), "void outer()\n{\n\tint inner()\n\t{\n\t\tint k;\n\t}\n}");
}

#[test]
fn empty_body_is_two_braces() {
    let mut writer = FileWriter::new();
    emit_body(&vec![], &mut writer);
    assert_eq!(writer.get_content(), "{\n\t\n}");
}

#[test]
fn call_separates_its_arguments() {
    let call = Expression::FunctionCall(func_call::Data {
        identifier: "f".to_string(),
        params: vec![
            Expression::Variable("a".to_string()),
            Expression::Litteral("1".to_string()),
            Expression::FunctionCall(func_call::Data { identifier: "g".to_string(), params: vec![] }),
        ],
    });
    let mut writer = FileWriter::new();
    call.emit(&mut writer);
    assert_eq!(writer.get_content(), "f(a, 1, g())");
}

#[test]
fn file_puts_each_statement_on_its_line() {
    let file = CFile {
        nodes: vec![
            AstNode::VarDeclaration(var_decl::Data {
                type_identifier: "int".to_string(),
                identifier: "a".to_string(),
            }),
            AstNode::VarAssignment(var_assign::Data {
                identifier: "a".to_string(),
                value: Expression::Variable("b".to_string()),
            }),
        ],
    };
    assert_eq!(file.render(), "int a;\na = b;\n");
    assert_eq!(CFile { nodes: vec![] }.render(), "");
}

#[test]
fn definition_nested_too_deep_is_not_written() {
    let mut node = AstNode::VarDeclaration(var_decl::Data {
        type_identifier: "int".to_string(),
        identifier: "leaf".to_string(),
    });
    for _ in 0..255 {
        node = AstNode::FuncDefinition(func_def::Data {
            identifier: "f".to_string(),
            type_identifier: "void".to_string(),
            params: vec![],
            body: vec![node],
        });
    }
    assert!(node.can_emit(0));
    assert!(!node.can_emit(1));
    let deepest = CFile { nodes: vec![node] };
    assert!(deepest.can_render());
    let written = deepest.try_render().unwrap();
    assert!(written.contains(&format!("\n{}int leaf;\n", "\t".repeat(255))));
    let mut nodes = deepest.nodes;
    let too_deep = CFile {
        nodes: vec![AstNode::FuncDefinition(func_def::Data {
            identifier: "g".to_string(),
            type_identifier: "void".to_string(),
            params: vec![],
            body: vec![nodes.pop().unwrap()],
        })],
    };
    assert!(!too_deep.can_render());
    assert_eq!(too_deep.try_render(), None);
}
