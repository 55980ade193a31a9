use tree_shaker::analyzer::Analyzer;
use tree_shaker::entity::dep::EntityDepNode;
use tree_shaker::nodes::expr::chain_expression::{ChainOutcome, ExpressionShape};
use tree_shaker::nodes::expr::object_expression::{ObjectPropertyInput, PropertyAction, PropertyKind};
use tree_shaker::nodes::misc::binding_rest_element::{Data as RestData, RestElementOutcome};
use tree_shaker::nodes::statement::StatementKind;
use tree_shaker::scope::ScopeContext;
use tree_shaker::transformer::Transformer;

fn transformer_referring(nodes: &[EntityDepNode]) -> Transformer {
    let mut analyzer = Analyzer::new(ScopeContext::new());
    for n in nodes {
        analyzer.refer_dep(*n);
    }
    Transformer::new(analyzer)
}

fn prop(kind: PropertyKind, value_kept: bool, value_is_function: bool, key_kept: bool) -> ObjectPropertyInput {
    ObjectPropertyInput::Property { kind, value_kept, value_is_function, key_kept }
}

#[test]
fn object_properties_actions() {
    let spread_a = EntityDepNode::AstKind(9, 1);
    let spread_b = EntityDepNode::AstKind(9, 2);
    let t = transformer_referring(&[spread_a]);
    let props = vec![
        prop(PropertyKind::Init, true, false, false),
        prop(PropertyKind::Setter, true, true, false),
        prop(PropertyKind::Getter, true, true, false),
        prop(PropertyKind::Init, false, false, true),
        prop(PropertyKind::Init, false, false, false),
        ObjectPropertyInput::Spread { node: spread_a, argument_kept: true },
        ObjectPropertyInput::Spread { node: spread_b, argument_kept: true },
        ObjectPropertyInput::Spread { node: spread_b, argument_kept: false },
    ];
    let actions = t.transform_object_expression(&props, false).unwrap();
    assert_eq!(
        actions,
        vec![
            PropertyAction::Keep { patch_setter_params: false },
            PropertyAction::Keep { patch_setter_params: true },
            PropertyAction::Keep { patch_setter_params: false },
            PropertyAction::KeepKeyOnly,
            PropertyAction::Drop,
            PropertyAction::KeepSpread,
            PropertyAction::KeepSpreadForEffect,
            PropertyAction::Drop,
        ]
    );
    let needed = t.transform_object_expression(&props, true).unwrap();
    assert_eq!(needed[6], PropertyAction::KeepSpread);
}

#[test]
fn unneeded_object_without_kept_parts_is_removed() {
    let t = transformer_referring(&[]);
    let props = vec![
        prop(PropertyKind::Init, false, false, false),
        ObjectPropertyInput::Spread { node: EntityDepNode::Environment, argument_kept: false },
    ];
    assert_eq!(t.transform_object_expression(&props, false), None);
    assert_eq!(t.transform_object_expression(&Vec::new(), false), None);
    assert_eq!(
        t.transform_object_expression(&props, true),
        Some(vec![PropertyAction::Drop, PropertyAction::Drop])
    );
    assert_eq!(t.transform_object_expression(&Vec::new(), true), Some(Vec::new()));
}

#[test]
fn spread_need_value_follows_reference() {
    let node = EntityDepNode::AstKind(9, 3);
    let t = transformer_referring(&[node]);
    assert!(t.spread_need_value(false, node));
    assert!(!t.spread_need_value(false, EntityDepNode::AstKind(9, 4)));
    assert!(t.spread_need_value(true, EntityDepNode::AstKind(9, 4)));
}

#[test]
fn chain_outcomes() {
    let t = transformer_referring(&[]);
    assert_eq!(t.transform_chain_expression(None), ChainOutcome::Removed);
    assert_eq!(t.transform_chain_expression(Some(ExpressionShape::Call)), ChainOutcome::ChainedCall);
    assert_eq!(t.transform_chain_expression(Some(ExpressionShape::Member)), ChainOutcome::ChainedMember);
    assert_eq!(t.transform_chain_expression(Some(ExpressionShape::Other)), ChainOutcome::Unwrapped);
}

#[test]
fn rest_element_effect_sticks() {
    let mut data = RestData::default();
    assert!(!data.has_effect);
    data.record_effect(false);
    assert!(!data.has_effect);
    data.record_effect(true);
    assert!(data.has_effect);
    data.record_effect(false);
    assert!(data.has_effect);
}

#[test]
fn rest_element_outcomes() {
    let t = transformer_referring(&[]);
    let quiet = RestData { has_effect: false };
    let loud = RestData { has_effect: true };
    assert_eq!(t.transform_binding_rest_element(true, &quiet), RestElementOutcome::Argument);
    assert_eq!(t.transform_binding_rest_element(true, &loud), RestElementOutcome::Argument);
    assert_eq!(t.transform_binding_rest_element(false, &loud), RestElementOutcome::UnusedArgument);
    assert_eq!(t.transform_binding_rest_element(false, &quiet), RestElementOutcome::Removed);
}

#[test]
fn statement_decisions() {
    let t = transformer_referring(&[]);
    assert!(t.transform_statement(StatementKind::ModuleDeclaration, false));
    assert!(!t.transform_statement(StatementKind::Expression, false));
    assert!(t.transform_statement(StatementKind::Block, true));
    assert!(!t.transform_statement(StatementKind::Declaration, false));
    let a = Analyzer::new(ScopeContext::new());
    assert!(!a.exec_statement(StatementKind::ModuleDeclaration, true));
    assert!(a.exec_statement(StatementKind::If, true));
    assert!(!a.exec_statement(StatementKind::Expression, false));
}

#[test]
fn statement_data_default() {
    let _d = tree_shaker::nodes::statement::Data::default();
}

#[test]
fn referring_more_keeps_more() {
    let node = EntityDepNode::AstKind(9, 5);
    let props = vec![ObjectPropertyInput::Spread { node, argument_kept: true }];
    let fewer = transformer_referring(&[]);
    let more = transformer_referring(&[node]);
    assert_eq!(fewer.transform_object_expression(&props, false), Some(vec![PropertyAction::KeepSpreadForEffect]));
    assert_eq!(more.transform_object_expression(&props, false), Some(vec![PropertyAction::KeepSpread]));
}
