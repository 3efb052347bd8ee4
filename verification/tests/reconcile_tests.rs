use guise::reconcile::{finish_children, plan_element, plan_text, ElementPlan, ElementProps, ElementTemplate, ExistingElement, TextPlan};
use guise::render_output::RenderOutput;

fn props(id: &str) -> ElementProps<String> {
    ElementProps { id: Some(id.to_string()), styleset: vec![format!("{}.style", id)], inline_style: Some(id.to_string()) }
}

fn existing(controller: Option<&str>, children: Vec<RenderOutput>) -> ExistingElement<String> {
    ExistingElement { entity: 7, controller: controller.map(|c| c.to_string()), props: props("old"), children }
}

fn template(controller: Option<&str>, child_count: usize) -> ElementTemplate<String> {
    ElementTemplate { controller: controller.map(|c| c.to_string()), props: props("new"), child_count }
}

#[test]
fn test_patch_keeps_and_drops_children() {
    let old = RenderOutput::Node(7);
    let e = existing(Some("button"), vec![RenderOutput::Node(1), RenderOutput::Node(2), RenderOutput::Node(3)]);
    let t = template(Some("button"), 2);
    match plan_element(&old, Some(e), t) {
        ElementPlan::Patch { entity, props, children, despawn } => {
            assert_eq!(entity, 7);
            assert_eq!(props.id, Some("new".to_string()));
            assert_eq!(props.styleset, vec!["new.style".to_string()]);
            assert_eq!(props.inline_style, Some("new".to_string()));
            assert_eq!(children, vec![RenderOutput::Node(1), RenderOutput::Node(2)]);
            assert_eq!(despawn, vec![RenderOutput::Node(3)]);
        }
        _ => panic!("expected a patch"),
    }
}

#[test]
fn test_patch_pads_children() {
    let old = RenderOutput::Node(7);
    let e = existing(None, vec![RenderOutput::Node(1)]);
    let t = template(None, 3);
    match plan_element(&old, Some(e), t) {
        ElementPlan::Patch { children, despawn, .. } => {
            assert_eq!(children, vec![RenderOutput::Node(1), RenderOutput::Empty, RenderOutput::Empty]);
            assert!(despawn.is_empty());
        }
        _ => panic!("expected a patch"),
    }
}

#[test]
fn test_other_controller_recreates() {
    let old = RenderOutput::Node(7);
    let e = existing(Some("slider"), vec![]);
    match plan_element(&old, Some(e), template(Some("button"), 1)) {
        ElementPlan::Create { despawn_node, props, child_count } => {
            assert_eq!(despawn_node, Some(7));
            assert_eq!(props.id, Some("new".to_string()));
            assert_eq!(child_count, 1);
        }
        _ => panic!("expected a new element"),
    }
    match plan_element::<String>(&RenderOutput::Empty, None, template(Some("button"), 1)) {
        ElementPlan::Create { despawn_node, .. } => assert_eq!(despawn_node, None),
        _ => panic!("expected a new element"),
    }
}

#[test]
fn test_plan_text() {
    assert!(matches!(plan_text(&RenderOutput::Node(4), true), TextPlan::Update(4)));
    assert!(matches!(plan_text(&RenderOutput::Node(4), false), TextPlan::Spawn));
    assert!(matches!(plan_text(&RenderOutput::Empty, true), TextPlan::Spawn));
}

#[test]
fn test_finish_children() {
    let before = vec![RenderOutput::Node(1), RenderOutput::Empty];
    let same = vec![RenderOutput::Node(1), RenderOutput::Empty];
    assert_eq!(finish_children(&before, &same, false), None);
    assert_eq!(finish_children(&before, &same, true), Some(vec![1]));
    let after = vec![RenderOutput::Node(1), RenderOutput::Fragment(vec![RenderOutput::Node(5), RenderOutput::Node(6)])];
    assert_eq!(finish_children(&before, &after, false), Some(vec![1, 5, 6]));
}
