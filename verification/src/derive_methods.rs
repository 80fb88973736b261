//! The methods that every record with named fields can be given: a
//! constructor, a getter and a setter for each field, and a copy made field
//! by field.
use crate::text::{concat2, concat3, join, joined};
use crate::tree::{params_view, Node, NodeKind, NodeView, Param, ParamView};
use vstd::prelude::*;
use vstd::string::*;

verus! {

/// Whether `node` is a record with named fields: a struct that writes its
/// fields with names, in braces, however many there are. A unit record
/// and a tuple record are no such records.
pub open spec fn is_record(node: NodeView) -> bool {
    node.kind == NodeKind::Struct && node.named_fields
}

/// The getter of a field: it is called as the field and hands out a
/// reference to it.
pub open spec fn getter(field: ParamView) -> NodeView {
    NodeView::leaf(NodeKind::Method, field.name).public().with_receiver("&Self"@)
        .with_return_type("&"@ + field.ty).with_child(
        NodeView::statement("&self."@ + field.name),
    )
}

/// The setter of a field: it stores the value and hands the record back.
pub open spec fn setter(field: ParamView) -> NodeView {
    NodeView::leaf(NodeKind::Method, "set_"@ + field.name).public().with_receiver(
        "&mut Self"@,
    ).with_member(ParamView::written("value"@, field.ty, true, field.is_path)).with_return_type(
        "&mut Self"@,
    ).with_child(
        NodeView::statement("self."@ + field.name + " = value;"@),
    ).with_child(NodeView::statement("self"@))
}

/// The getter and the setter of each field, field by field.
pub open spec fn accessors(fields: Seq<ParamView>) -> Seq<NodeView>
    decreases fields.len(),
{
    if fields.len() == 0 {
        Seq::empty()
    } else {
        accessors(fields.drop_last()).push(getter(fields.last())).push(setter(fields.last()))
    }
}

/// The names of the fields.
pub open spec fn field_names(fields: Seq<ParamView>) -> Seq<Seq<char>> {
    Seq::new(fields.len(), |i: int| fields[i].name)
}

/// For each field, the text that copies it.
pub open spec fn field_clones(fields: Seq<ParamView>) -> Seq<Seq<char>> {
    Seq::new(fields.len(), |i: int| fields[i].name + ": self."@ + fields[i].name + ".clone()"@)
}

/// The fields as the parameters of the constructor.
pub open spec fn as_parameters(fields: Seq<ParamView>) -> Seq<ParamView> {
    Seq::new(fields.len(), |i: int| ParamView { is_public: false, ..fields[i] })
}

/// The record written out from the texts of its fields.
pub open spec fn record_literal(fields: Seq<Seq<char>>) -> Seq<char> {
    if fields.len() == 0 {
        "Self {}"@
    } else {
        "Self { "@ + joined(fields, ", "@) + " }"@
    }
}

/// The constructor: it takes a value for each field, in order.
pub open spec fn new_method(fields: Seq<ParamView>) -> NodeView {
    NodeView::leaf(NodeKind::Method, "new"@).public().with_params(as_parameters(fields))
        .with_return_type("Self"@).with_child(
        NodeView::statement(record_literal(field_names(fields))),
    )
}

/// The method that copies the record field by field.
pub open spec fn clone_into_method(fields: Seq<ParamView>) -> NodeView {
    NodeView::leaf(NodeKind::Method, "clone_into"@).public().with_receiver("&Self"@)
        .with_return_type("Self"@).with_child(
        NodeView::statement(record_literal(field_clones(fields))),
    )
}

/// The methods derived for `input`: for a record with named fields the
/// constructor, the accessors and the copy; for anything else the copy
/// alone, of no field.
pub open spec fn derived_methods(input: NodeView) -> Seq<NodeView> {
    if is_record(input) {
        seq![new_method(input.params)] + accessors(input.params) + seq![
            clone_into_method(input.params),
        ]
    } else {
        seq![clone_into_method(Seq::empty())]
    }
}

/// The implementation block derived for `input`: it has the generic
/// parameters and the `where` clause of `input`.
pub open spec fn derived_impl(input: NodeView) -> NodeView {
    NodeView::leaf(NodeKind::Impl, input.name).with_generics(
        input.generics,
        input.type_arguments,
        input.where_clause,
    ).with_body(derived_methods(input))
}

fn build_record_literal(fields: &Vec<String>) -> (text: String)
    ensures
        text@ == record_literal(Seq::new(fields@.len(), |i: int| fields@[i]@)),
{
    if fields.len() == 0 {
        String::from_str("Self {}")
    } else {
        concat3("Self { ", join(fields, ", ").as_str(), " }")
    }
}

fn build_getter(field: &Param) -> (method: Node)
    ensures
        method@ == getter(field@),
{
    let mut method = Node::new(NodeKind::Method, field.name.as_str());
    method.set_public();
    method.add_receiver("&Self");
    method.set_return_type(concat2("&", field.ty.as_str()).as_str());
    method.add_child(Node::statement(concat2("&self.", field.name.as_str()).as_str()));
    method
}

fn build_setter(field: &Param) -> (method: Node)
    ensures
        method@ == setter(field@),
{
    let mut method = Node::new(NodeKind::Method, concat2("set_", field.name.as_str()).as_str());
    method.set_public();
    method.add_receiver("&mut Self");
    method.add_member(Param::written("value", field.ty.as_str(), true, field.is_path));
    method.set_return_type("&mut Self");
    method.add_child(
        Node::statement(concat3("self.", field.name.as_str(), " = value;").as_str()),
    );
    method.add_child(Node::statement("self"));
    method
}

fn build_new(fields: &Vec<Param>) -> (method: Node)
    ensures
        method@ == new_method(params_view(fields@)),
{
    let ghost views = params_view(fields@);
    let mut method = Node::new(NodeKind::Method, "new");
    method.set_public();
    let ghost start = method@;
    let mut names: Vec<String> = Vec::new();
    assert(start.with_params(as_parameters(views).take(0)) == start) by {
        assert(as_parameters(views).take(0) =~= start.params);
    }
    let mut i: usize = 0;
    while i < fields.len()
        invariant
            i <= fields@.len(),
            views == params_view(fields@),
            method@ == start.with_params(as_parameters(views).take(i as int)),
            names@.len() == i,
            forall|k: int| 0 <= k < i ==> (#[trigger] names@[k])@ == views[k].name,
        decreases fields@.len() - i,
    {
        method.add_member(
            Param::written(
                fields[i].name.as_str(),
                fields[i].ty.as_str(),
                fields[i].is_name,
                fields[i].is_path,
            ),
        );
        names.push(fields[i].name.clone());
        assert(as_parameters(views).take(i + 1) =~= as_parameters(views).take(i as int).push(
            ParamView { is_public: false, ..views[i as int] },
        ));
        i = i + 1;
    }
    assert(as_parameters(views).take(fields@.len() as int) =~= as_parameters(views));
    assert(Seq::new(names@.len(), |i: int| names@[i]@) =~= field_names(views));
    method.set_return_type("Self");
    method.add_child(Node::statement(build_record_literal(&names).as_str()));
    method
}

fn build_clone_into(fields: &Vec<Param>) -> (method: Node)
    ensures
        method@ == clone_into_method(params_view(fields@)),
{
    let ghost views = params_view(fields@);
    let mut clones: Vec<String> = Vec::new();
    let mut i: usize = 0;
    while i < fields.len()
        invariant
            i <= fields@.len(),
            views == params_view(fields@),
            clones@.len() == i,
            forall|k: int| 0 <= k < i ==> (#[trigger] clones@[k])@ == field_clones(views)[k],
        decreases fields@.len() - i,
    {
        let mut text = fields[i].name.clone();
        text.append(": self.");
        text.append(fields[i].name.as_str());
        text.append(".clone()");
        clones.push(text);
        i = i + 1;
    }
    assert(Seq::new(clones@.len(), |i: int| clones@[i]@) =~= field_clones(views));
    let literal = build_record_literal(&clones);
    let mut method = Node::new(NodeKind::Method, "clone_into");
    method.set_public();
    method.add_receiver("&Self");
    method.set_return_type("Self");
    method.add_child(Node::statement(literal.as_str()));
    method
}

/// Derives the common methods of `input`: for a record with named fields
/// a constructor, a getter and a setter for each field, and a copy made
/// field by field. For any other node only the copy is derived, and it
/// copies no field.
pub fn derive_common_methods(input: &Node) -> (block: Node)
    ensures
        block@ == derived_impl(input@),
{
    let mut block = Node::new(NodeKind::Impl, input.name.as_str());
    block.set_generics(
        input.generics.as_str(),
        input.type_arguments.as_str(),
        input.where_clause.as_str(),
    );
    let ghost start = block@;
    if input.kind == NodeKind::Struct && input.named_fields {
        let ghost fields = input@.params;
        block.add_child(build_new(&input.params));
        let ghost head = seq![new_method(fields)];
        assert(block@ == start.with_body(head + accessors(fields.take(0)))) by {
            assert(fields.take(0) =~= Seq::empty());
            assert(block@.body =~= head + accessors(fields.take(0)));
        }
        let mut i: usize = 0;
        while i < input.params.len()
            invariant
                i <= input.params@.len(),
                fields == input@.params,
                head == seq![new_method(fields)],
                block@ == start.with_body(head + accessors(fields.take(i as int))),
            decreases input.params@.len() - i,
        {
            block.add_child(build_getter(&input.params[i]));
            block.add_child(build_setter(&input.params[i]));
            proof {
                assert(fields.take(i + 1).drop_last() =~= fields.take(i as int));
                assert(fields.take(i + 1).last() == input.params@[i as int]@);
                assert(block@.body =~= head + accessors(fields.take(i + 1)));
            }
            i = i + 1;
        }
        assert(fields.take(input.params@.len() as int) =~= fields);
        block.add_child(build_clone_into(&input.params));
        assert(block@.body =~= derived_methods(input@));
    } else {
        let none: Vec<Param> = Vec::new();
        assert(params_view(none@) =~= Seq::empty());
        block.add_child(build_clone_into(&none));
        assert(block@.body =~= derived_methods(input@));
    }
    block
}

} // verus!
