use tree_shaker::analyzer::Analyzer;
use tree_shaker::ast::AstType2;
use tree_shaker::entity::dep::{EntityDepNode, ReferredNodes};
use tree_shaker::scope::ScopeContext;
use tree_shaker::transformer::Transformer;

#[test]
fn referred_nodes_start_empty() {
    let nodes = ReferredNodes::new();
    assert_eq!(nodes.len(), 0);
    assert!(!nodes.contains(EntityDepNode::Environment));
}

#[test]
fn referred_nodes_insert_reports_novelty() {
    let mut nodes = ReferredNodes::new();
    assert!(nodes.insert(EntityDepNode::AstKind(3, 4096)));
    assert!(!nodes.insert(EntityDepNode::AstKind(3, 4096)));
    assert!(nodes.insert(EntityDepNode::AstKind(4, 4096)));
    assert_eq!(nodes.len(), 2);
    assert!(nodes.contains(EntityDepNode::AstKind(3, 4096)));
    assert!(!nodes.contains(EntityDepNode::AstKind(3, 4097)));
}

#[test]
fn analyzer_refer_dep_reaches_transformer() {
    let mut analyzer = Analyzer::new(ScopeContext::new());
    analyzer.refer_dep(EntityDepNode::Ptr(AstType2::Statement, 64));
    analyzer.refer_dep(EntityDepNode::Environment);
    let transformer = Transformer::new(analyzer);
    assert!(transformer.is_referred(EntityDepNode::Ptr(AstType2::Statement, 64)));
    assert!(transformer.is_referred(EntityDepNode::Environment));
    assert!(!transformer.is_referred(EntityDepNode::Ptr(AstType2::BindingRestElement, 64)));
}

#[test]
fn refer_dep_twice_is_refer_once() {
    let mut analyzer = Analyzer::new(ScopeContext::new());
    analyzer.refer_dep(EntityDepNode::AstKind(1, 2));
    analyzer.refer_dep(EntityDepNode::AstKind(1, 2));
    assert_eq!(analyzer.referred_nodes.len(), 1);
}

#[test]
fn transformer_refer_dep_marks_only_that_node() {
    let mut transformer = Transformer::new(Analyzer::new(ScopeContext::new()));
    assert!(!transformer.is_referred(EntityDepNode::AstKind(7, 8)));
    transformer.refer_dep(EntityDepNode::AstKind(7, 8));
    assert!(transformer.is_referred(EntityDepNode::AstKind(7, 8)));
    assert!(!transformer.is_referred(EntityDepNode::AstKind(8, 7)));
    assert!(!transformer.is_referred(EntityDepNode::Environment));
}
