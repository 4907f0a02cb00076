use channel_geometry::channel::{Channel, CylindricalShape, RectangularShape, Shape};
use channel_geometry::network::{Module, Network, Node, NodeId};
use channel_geometry::primitives::{Dimensions, Point};

#[test]
fn network_records_hold_their_fields() {
    let channel = Channel {
        id: 7,
        node_a: NodeId(0),
        node_b: NodeId(1),
        shape: Shape::Rectangular(RectangularShape {
            width: "10".to_string(),
            height: "5".to_string(),
        }),
    };
    let module = Module {
        id: 3,
        position: Point { x: "0".to_string(), y: "0".to_string() },
        size: Dimensions { x: "100".to_string(), y: "50".to_string() },
        nodes: vec![NodeId(0)],
    };
    let network = Network {
        nodes: vec![Node { id: NodeId(0) }, Node { id: NodeId(1) }],
        channels: vec![channel.clone()],
        modules: vec![module.clone()],
    };
    assert_eq!(network.nodes.len(), 2);
    assert_eq!(network.channels[0], channel);
    assert_eq!(network.modules[0], module);
    assert_eq!(network.channels[0].node_a, NodeId(0));
}

#[test]
fn cylindrical_shape_holds_its_radius() {
    let shape = Shape::Cylindrical(CylindricalShape { radius: "2.5".to_string() });
    match shape {
        Shape::Cylindrical(c) => assert_eq!(c.radius, "2.5".to_string()),
        Shape::Rectangular(_) => panic!(),
    }
}
