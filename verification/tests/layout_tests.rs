use corenet::protocol::{ScreenEdge, ScreenInfo};
use corenet::screen::{LayoutBuilder, ScreenLayout, ScreenNode};

fn make_screen_info(id: &str, name: &str) -> ScreenInfo {
    ScreenInfo::new(id.to_string(), name.to_string(), 1920, 1080)
}

fn neighbor_id(layout: &ScreenLayout, host: &str, edge: ScreenEdge) -> Option<String> {
    layout.get_neighbor(host, edge).map(|node| node.host_id.clone())
}

#[test]
fn test_layout_creation() {
    let local = make_screen_info("local", "Local Machine");
    let remote = make_screen_info("remote", "Remote Machine");

    let layout = LayoutBuilder::new()
        .local_host(&local)
        .add_host(&remote)
        .right_of("local", "remote")
        .build();

    assert_eq!(layout.host_count(), 2);

    let neighbor = layout.get_neighbor("local", ScreenEdge::Right);
    assert!(neighbor.is_some());
    assert_eq!(neighbor.unwrap().host_id, "remote");
}

#[test]
fn test_linear_layout() {
    let hosts = vec![
        make_screen_info("a", "Host A"),
        make_screen_info("b", "Host B"),
        make_screen_info("c", "Host C"),
    ];

    let mut layout = ScreenLayout::new();
    layout.create_linear_layout(&hosts);

    // A -> B
    assert_eq!(
        layout.get_neighbor("a", ScreenEdge::Right).map(|n| &n.host_id),
        Some(&"b".to_string())
    );

    // B -> C
    assert_eq!(
        layout.get_neighbor("b", ScreenEdge::Right).map(|n| &n.host_id),
        Some(&"c".to_string())
    );

    // B <- C
    assert_eq!(
        layout.get_neighbor("c", ScreenEdge::Left).map(|n| &n.host_id),
        Some(&"b".to_string())
    );
}

#[test]
fn test_linear_layout_replaces_what_was() {
    let mut layout = ScreenLayout::new();
    layout.set_local_host(&make_screen_info("old", "Old"));
    layout.create_linear_layout(&[make_screen_info("a", "Host A")]);
    assert_eq!(layout.host_count(), 1);
    assert!(layout.get_host("old").is_none());
    assert!(layout.get_host("a").is_some());
    assert!(layout.get_neighbor("a", ScreenEdge::Right).is_none());
    // The local host's identifier is kept, its screen is gone.
    assert!(layout.local_host().is_none());
    layout.create_linear_layout(&[]);
    assert_eq!(layout.host_count(), 0);
    // Ends of the chain have nothing beyond them.
    let hosts = vec![make_screen_info("a", "A"), make_screen_info("b", "B")];
    layout.create_linear_layout(&hosts);
    assert!(layout.get_neighbor("a", ScreenEdge::Left).is_none());
    assert!(layout.get_neighbor("b", ScreenEdge::Right).is_none());
    assert_eq!(neighbor_id(&layout, "b", ScreenEdge::Left), Some("a".to_string()));
}

#[test]
fn test_builder_helpers_link_both_ways() {
    let a = make_screen_info("a", "Host A");
    let b = make_screen_info("b", "Host B");
    let cases = [
        (ScreenEdge::Right, ScreenEdge::Left),
        (ScreenEdge::Left, ScreenEdge::Right),
        (ScreenEdge::Top, ScreenEdge::Bottom),
        (ScreenEdge::Bottom, ScreenEdge::Top),
    ];
    for (edge_a, edge_b) in cases {
        let builder = LayoutBuilder::new().add_host(&a).add_host(&b);
        let builder = match edge_a {
            ScreenEdge::Right => builder.right_of("a", "b"),
            ScreenEdge::Left => builder.left_of("a", "b"),
            ScreenEdge::Top => builder.above("a", "b"),
            ScreenEdge::Bottom => builder.below("a", "b"),
        };
        let layout = builder.build();
        assert_eq!(neighbor_id(&layout, "a", edge_a), Some("b".to_string()));
        assert_eq!(neighbor_id(&layout, "b", edge_b), Some("a".to_string()));
        // No other edge was touched.
        for edge in [ScreenEdge::Left, ScreenEdge::Right, ScreenEdge::Top, ScreenEdge::Bottom] {
            if edge != edge_a {
                assert!(layout.get_neighbor("a", edge).is_none());
            }
            if edge != edge_b {
                assert!(layout.get_neighbor("b", edge).is_none());
            }
        }
    }
}

#[test]
fn test_connect_needs_both_hosts() {
    let mut layout = ScreenLayout::new();
    layout.add_host(&make_screen_info("a", "Host A"));
    assert!(!layout.connect_hosts("a", ScreenEdge::Right, "b", ScreenEdge::Left));
    assert!(!layout.connect_hosts("b", ScreenEdge::Right, "a", ScreenEdge::Left));
    assert!(layout.get_host("a").unwrap().get_neighbor(ScreenEdge::Right).is_none());
    assert!(layout.get_host("a").unwrap().get_neighbor(ScreenEdge::Left).is_none());
    layout.add_host(&make_screen_info("b", "Host B"));
    assert!(layout.connect_hosts("a", ScreenEdge::Right, "b", ScreenEdge::Left));
    assert_eq!(
        layout.get_host("a").unwrap().get_neighbor(ScreenEdge::Right),
        Some(&"b".to_string())
    );
    // The builder leaves the layout as it is where a host is missing.
    let layout = LayoutBuilder::new()
        .add_host(&make_screen_info("a", "Host A"))
        .connect("a", ScreenEdge::Top, "nowhere", ScreenEdge::Bottom)
        .build();
    assert!(layout.get_host("a").unwrap().get_neighbor(ScreenEdge::Top).is_none());
}

#[test]
fn test_remove_host_purges_references() {
    let hosts = vec![
        make_screen_info("a", "Host A"),
        make_screen_info("b", "Host B"),
        make_screen_info("c", "Host C"),
    ];
    let mut layout = ScreenLayout::new();
    layout.create_linear_layout(&hosts);
    layout.remove_host("b");
    assert_eq!(layout.host_count(), 2);
    assert!(layout.get_host("b").is_none());
    assert!(layout.get_host("a").unwrap().get_neighbor(ScreenEdge::Right).is_none());
    assert!(layout.get_host("c").unwrap().get_neighbor(ScreenEdge::Left).is_none());
    // Removing a host that is not there changes nothing.
    layout.remove_host("zzz");
    assert_eq!(layout.host_count(), 2);
}

#[test]
fn test_disconnect_hosts() {
    let hosts = vec![
        make_screen_info("a", "Host A"),
        make_screen_info("b", "Host B"),
        make_screen_info("c", "Host C"),
    ];
    let mut layout = ScreenLayout::new();
    layout.create_linear_layout(&hosts);
    layout.disconnect_hosts("a", "b");
    assert!(layout.get_neighbor("a", ScreenEdge::Right).is_none());
    assert!(layout.get_neighbor("b", ScreenEdge::Left).is_none());
    assert_eq!(neighbor_id(&layout, "b", ScreenEdge::Right), Some("c".to_string()));
    assert_eq!(neighbor_id(&layout, "c", ScreenEdge::Left), Some("b".to_string()));
    assert_eq!(layout.host_count(), 3);
}

#[test]
fn test_add_host_replaces_same_id() {
    let mut layout = ScreenLayout::new();
    layout.add_host(&make_screen_info("a", "Host A"));
    layout.add_host(&make_screen_info("b", "Host B"));
    layout.connect_hosts("a", ScreenEdge::Right, "b", ScreenEdge::Left);
    layout.add_host(&ScreenInfo::new("a".to_string(), "Renamed".to_string(), 800, 600));
    assert_eq!(layout.host_count(), 2);
    let a = layout.get_host("a").unwrap();
    assert_eq!(a.host_name, "Renamed");
    assert_eq!((a.width, a.height), (800, 600));
    // The new screen comes without neighbors.
    assert!(a.get_neighbor(ScreenEdge::Right).is_none());
    assert_eq!(neighbor_id(&layout, "b", ScreenEdge::Left), Some("a".to_string()));
}

#[test]
fn test_local_host_and_all_hosts() {
    let mut layout = ScreenLayout::new();
    assert!(layout.local_host().is_none());
    assert_eq!(layout.host_count(), 0);
    layout.set_local_host(&make_screen_info("me", "Me"));
    layout.add_host(&make_screen_info("you", "You"));
    assert_eq!(layout.local_host().unwrap().host_id, "me");
    let mut ids: Vec<String> = layout.all_hosts().iter().map(|n| n.host_id.clone()).collect();
    ids.sort();
    assert_eq!(ids, vec!["me".to_string(), "you".to_string()]);
}

#[test]
fn test_get_host_mut() {
    let mut layout = ScreenLayout::new();
    layout.add_host(&make_screen_info("a", "Host A"));
    assert!(layout.get_host_mut("b").is_none());
    {
        let node = layout.get_host_mut("a").unwrap();
        node.width = 3840;
        node.set_neighbor(ScreenEdge::Top, "roof".to_string());
    }
    let node = layout.get_host("a").unwrap();
    assert_eq!(node.width, 3840);
    assert_eq!(node.get_neighbor(ScreenEdge::Top), Some(&"roof".to_string()));
    // The neighbor is named but not in the layout.
    assert!(layout.get_neighbor("a", ScreenEdge::Top).is_none());
}

#[test]
fn test_screen_node() {
    let mut node = ScreenNode::new(&make_screen_info("a", "Host A"));
    assert_eq!(node.host_id, "a");
    assert_eq!(node.host_name, "Host A");
    assert_eq!((node.width, node.height), (1920, 1080));
    for edge in [ScreenEdge::Left, ScreenEdge::Right, ScreenEdge::Top, ScreenEdge::Bottom] {
        assert!(node.get_neighbor(edge).is_none());
    }
    node.set_neighbor(ScreenEdge::Left, "b".to_string());
    node.set_neighbor(ScreenEdge::Bottom, "c".to_string());
    node.set_neighbor(ScreenEdge::Top, "b".to_string());
    assert_eq!(node.get_neighbor(ScreenEdge::Left), Some(&"b".to_string()));
    assert_eq!(node.get_neighbor(ScreenEdge::Bottom), Some(&"c".to_string()));
    node.remove_neighbor(ScreenEdge::Left);
    assert!(node.get_neighbor(ScreenEdge::Left).is_none());
    node.forget_host("b");
    assert!(node.get_neighbor(ScreenEdge::Top).is_none());
    assert_eq!(node.get_neighbor(ScreenEdge::Bottom), Some(&"c".to_string()));
    let copy = node.clone();
    assert_eq!(copy.get_neighbor(ScreenEdge::Bottom), Some(&"c".to_string()));
    assert_eq!(copy.host_id, "a");
}

fn links_are_two_way(layout: &ScreenLayout) -> bool {
    let edges = [ScreenEdge::Left, ScreenEdge::Right, ScreenEdge::Top, ScreenEdge::Bottom];
    let opposite = [ScreenEdge::Right, ScreenEdge::Left, ScreenEdge::Bottom, ScreenEdge::Top];
    for node in layout.all_hosts() {
        for (edge, back) in edges.iter().zip(opposite.iter()) {
            if let Some(target) = node.get_neighbor(*edge) {
                match layout.get_host(target) {
                    Some(other) => {
                        if other.get_neighbor(*back) != Some(&node.host_id) {
                            return false;
                        }
                    }
                    None => return false,
                }
            }
        }
    }
    true
}

#[test]
fn test_builder_relinks_both_sides() {
    let layout = LayoutBuilder::new()
        .add_host(&make_screen_info("a", "Host A"))
        .add_host(&make_screen_info("b", "Host B"))
        .add_host(&make_screen_info("c", "Host C"))
        .right_of("a", "b")
        .right_of("a", "c")
        .build();
    assert_eq!(neighbor_id(&layout, "a", ScreenEdge::Right), Some("c".to_string()));
    assert_eq!(neighbor_id(&layout, "c", ScreenEdge::Left), Some("a".to_string()));
    // B was beyond A's right edge and is no more: it does not name A.
    assert!(layout.get_host("b").unwrap().get_neighbor(ScreenEdge::Left).is_none());
    assert!(links_are_two_way(&layout));

    // The same from the other side: C takes B's place to the left of D.
    let layout = LayoutBuilder::new()
        .add_host(&make_screen_info("a", "Host A"))
        .add_host(&make_screen_info("b", "Host B"))
        .add_host(&make_screen_info("c", "Host C"))
        .right_of("a", "b")
        .right_of("c", "b")
        .build();
    assert_eq!(neighbor_id(&layout, "b", ScreenEdge::Left), Some("c".to_string()));
    assert_eq!(neighbor_id(&layout, "c", ScreenEdge::Right), Some("b".to_string()));
    assert!(layout.get_host("a").unwrap().get_neighbor(ScreenEdge::Right).is_none());
    assert!(links_are_two_way(&layout));
}

#[test]
fn test_builder_adding_a_host_again_drops_its_links() {
    let layout = LayoutBuilder::new()
        .local_host(&make_screen_info("a", "Host A"))
        .add_host(&make_screen_info("b", "Host B"))
        .right_of("a", "b")
        .add_host(&ScreenInfo::new("b".to_string(), "Renamed".to_string(), 800, 600))
        .build();
    assert_eq!(layout.host_count(), 2);
    assert_eq!(layout.get_host("b").unwrap().host_name, "Renamed");
    assert!(layout.get_host("b").unwrap().get_neighbor(ScreenEdge::Left).is_none());
    assert!(layout.get_host("a").unwrap().get_neighbor(ScreenEdge::Right).is_none());
    assert_eq!(layout.local_host().unwrap().host_id, "a");
    assert!(links_are_two_way(&layout));

    let layout = LayoutBuilder::new()
        .local_host(&make_screen_info("a", "Host A"))
        .add_host(&make_screen_info("b", "Host B"))
        .below("a", "b")
        .local_host(&make_screen_info("a", "Host A"))
        .build();
    assert!(layout.get_host("b").unwrap().get_neighbor(ScreenEdge::Top).is_none());
    assert!(layout.get_host("a").unwrap().get_neighbor(ScreenEdge::Bottom).is_none());
    assert!(links_are_two_way(&layout));
}

#[test]
fn test_builder_connect_takes_opposite_edges_only() {
    let a = make_screen_info("a", "Host A");
    let b = make_screen_info("b", "Host B");
    let layout = LayoutBuilder::new()
        .add_host(&a)
        .add_host(&b)
        .connect("a", ScreenEdge::Right, "b", ScreenEdge::Top)
        .build();
    assert!(layout.get_host("a").unwrap().get_neighbor(ScreenEdge::Right).is_none());
    assert!(layout.get_host("b").unwrap().get_neighbor(ScreenEdge::Top).is_none());
    let layout = LayoutBuilder::new()
        .add_host(&a)
        .add_host(&b)
        .connect("a", ScreenEdge::Top, "b", ScreenEdge::Bottom)
        .build();
    assert_eq!(neighbor_id(&layout, "a", ScreenEdge::Top), Some("b".to_string()));
    assert_eq!(neighbor_id(&layout, "b", ScreenEdge::Bottom), Some("a".to_string()));
    assert!(links_are_two_way(&layout));
    // A host beside itself.
    let layout = LayoutBuilder::new().add_host(&a).right_of("a", "a").build();
    assert_eq!(neighbor_id(&layout, "a", ScreenEdge::Right), Some("a".to_string()));
    assert_eq!(neighbor_id(&layout, "a", ScreenEdge::Left), Some("a".to_string()));
    assert!(links_are_two_way(&layout));
}
