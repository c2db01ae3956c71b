use vstd::prelude::*;

verus! {

/// One attribute of a graph node, as the model file carries it: a name
/// and the typed payloads. Scalar floats ride in their textual form, as
/// the shader templates interpolate them.
#[derive(Debug)]
pub struct AttributeProto {
    pub name: String,
    pub i: i64,
    pub ints: Vec<i64>,
    pub f: String,
    pub s: String,
}

/// An initializer tensor of the model: raw little-endian bytes with a
/// declared element type code and dimension sizes.
#[derive(Debug)]
pub struct TensorProto {
    pub name: String,
    pub data_type: i64,
    pub dims: Vec<i64>,
    pub raw_data: Vec<u8>,
}

/// The tensor type of a value-info entry: an element type code and the
/// dimension sizes.
#[derive(Debug)]
pub struct TensorTypeProto {
    pub elem_type: i64,
    pub dims: Vec<i64>,
}

/// A graph input, output or intermediate value declaration.
#[derive(Debug)]
pub struct ValueInfoProto {
    pub name: String,
    pub field_type: Option<TensorTypeProto>,
}

/// One operator node: its name, kind, ordered tensor names and
/// attributes.
#[derive(Debug)]
pub struct NodeProto {
    pub name: String,
    pub op_type: String,
    pub input: Vec<String>,
    pub output: Vec<String>,
    pub attribute: Vec<AttributeProto>,
}

/// The dataflow graph of the model.
#[derive(Debug)]
pub struct GraphProto {
    pub node: Vec<NodeProto>,
    pub input: Vec<ValueInfoProto>,
    pub output: Vec<ValueInfoProto>,
    pub initializer: Vec<TensorProto>,
    pub value_info: Vec<ValueInfoProto>,
}

/// A parsed model: the host's protobuf reader hands the graph over in
/// this plain form.
#[derive(Debug)]
pub struct ModelProto {
    pub graph: GraphProto,
}

/// The first attribute named `name`, if any.
pub open spec fn find_attr(attrs: Seq<AttributeProto>, name: Seq<char>) -> Option<AttributeProto>
    decreases attrs.len(),
{
    if attrs.len() == 0 {
        None
    } else if attrs[0].name@ == name {
        Some(attrs[0])
    } else {
        find_attr(attrs.drop_first(), name)
    }
}

} // verus!
