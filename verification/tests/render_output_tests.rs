use guise::render_output::RenderOutput;

#[test]
fn outputs_count_and_flatten_their_entities() {
    let out = RenderOutput::Fragment(vec![
        RenderOutput::Node(1),
        RenderOutput::Empty,
        RenderOutput::Fragment(vec![RenderOutput::Node(2), RenderOutput::Node(3)]),
        RenderOutput::Fragment(vec![]),
        RenderOutput::Node(4),
    ]);
    assert_eq!(out.count(), 4);
    let mut v = vec![9];
    out.flatten(&mut v);
    assert_eq!(v, vec![9, 1, 2, 3, 4]);
    assert_eq!(RenderOutput::default().count(), 0);
    let mut w = Vec::new();
    RenderOutput::Empty.flatten(&mut w);
    assert!(w.is_empty());
}
