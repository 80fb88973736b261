//! The generator: builders of new tree fragments from a name and a list of
//! members. Each call makes a fresh fragment and reads nothing but its
//! arguments.
use crate::text::{concat2, concat3, lowercase, str_equal, to_lowercase};
use crate::tree::{nodes_view, Node, NodeKind, NodeView, Param, ParamView};
use vstd::prelude::*;
use vstd::string::*;

verus! {

/// The members that a list of name and type pairs declares, all public.
pub open spec fn fields_of(pairs: Seq<(&str, &str)>) -> Seq<ParamView> {
    Seq::new(pairs.len(), |i: int| ParamView::public(pairs[i].0@, pairs[i].1@))
}

/// The annotation of a generated record.
pub open spec fn record_derives() -> Seq<char> {
    "#[derive(Debug, Clone, serde::Serialize, serde::Deserialize)]"@
}

/// The data record called `name` with one public member for each field,
/// in the order given.
pub open spec fn dto_node(name: Seq<char>, fields: Seq<ParamView>) -> NodeView {
    NodeView::leaf(NodeKind::Struct, name).public().with_named_fields().with_attribute(
        record_derives(),
    ).with_params(fields)
}

/// Builds the data record called `name` with one public member for each
/// of `fields`, a pair of a name and a type. The types are taken as they
/// are given and held to be paths.
pub fn generate_dto(name: &str, fields: Vec<(&str, &str)>) -> (record: Node)
    ensures
        record@ == dto_node(name@, fields_of(fields@)),
{
    let mut record = Node::new(NodeKind::Struct, name);
    record.set_public();
    record.set_named_fields();
    record.add_attribute("#[derive(Debug, Clone, serde::Serialize, serde::Deserialize)]");
    let ghost start = record@;
    let ghost members = fields_of(fields@);
    let mut i: usize = 0;
    assert(start.with_params(members.take(0)) == start) by {
        assert(members.take(0) =~= start.params);
    }
    while i < fields.len()
        invariant
            i <= fields@.len(),
            members == fields_of(fields@),
            record@ == start.with_params(members.take(i as int)),
        decreases fields@.len() - i,
    {
        record.add_field(fields[i].0, fields[i].1);
        assert(members.take(i + 1) =~= members.take(i as int).push(members[i as int]));
        i = i + 1;
    }
    assert(members.take(fields@.len() as int) =~= members);
    record
}

/// Why a conversion between two records cannot be generated.
#[derive(Debug, PartialEq, Eq)]
pub enum MappingError {
    /// The record converted from has no field of this name.
    UnknownSourceField(String),
    /// The record converted to has no field of this name.
    UnknownTargetField(String),
}

/// The view of a [`MappingError`].
pub enum MappingErrorView {
    UnknownSourceField(Seq<char>),
    UnknownTargetField(Seq<char>),
}

impl View for MappingError {
    type V = MappingErrorView;

    open spec fn view(&self) -> MappingErrorView {
        match self {
            MappingError::UnknownSourceField(field) => MappingErrorView::UnknownSourceField(
                field@,
            ),
            MappingError::UnknownTargetField(field) => MappingErrorView::UnknownTargetField(
                field@,
            ),
        }
    }
}

/// The mapping of field names that a list of pairs states: each pair maps
/// a field of the source record to a field of the target record.
pub open spec fn mappings_of(pairs: Seq<(&str, &str)>) -> Seq<(Seq<char>, Seq<char>)> {
    Seq::new(pairs.len(), |i: int| (pairs[i].0@, pairs[i].1@))
}

/// Whether `record` has a member called `field`.
pub open spec fn has_field(record: NodeView, field: Seq<char>) -> bool {
    exists|i: int| 0 <= i < record.params.len() && (#[trigger] record.params[i]).name == field
}

/// What is wrong with a mapping, if anything: the first pair, in the
/// order given, that names a field which its record does not have; of
/// such a pair the source field is looked at first.
pub open spec fn mapping_fault(
    from: NodeView,
    to: NodeView,
    mappings: Seq<(Seq<char>, Seq<char>)>,
) -> Option<MappingErrorView>
    decreases mappings.len(),
{
    if mappings.len() == 0 {
        None
    } else if !has_field(from, mappings[0].0) {
        Some(MappingErrorView::UnknownSourceField(mappings[0].0))
    } else if !has_field(to, mappings[0].1) {
        Some(MappingErrorView::UnknownTargetField(mappings[0].1))
    } else {
        mapping_fault(from, to, mappings.skip(1))
    }
}

/// The conversion nodes of a mapping: one for each pair, in order.
pub open spec fn conversions(mappings: Seq<(Seq<char>, Seq<char>)>) -> Seq<NodeView> {
    Seq::new(mappings.len(), |i: int| conversion(mappings[i]))
}

/// The conversion node of one pair: the target field takes the value of
/// the source field.
pub open spec fn conversion(mapping: (Seq<char>, Seq<char>)) -> NodeView {
    NodeView::statement(mapping.1 + ": from."@ + mapping.0)
}

/// The conversion from the record `from_name` to the record `to_name`: an
/// implementation block with the one function `from`, whose body builds
/// the target record from the conversion nodes.
pub open spec fn from_impl_node(
    from_name: Seq<char>,
    to_name: Seq<char>,
    mappings: Seq<(Seq<char>, Seq<char>)>,
) -> NodeView {
    NodeView::leaf(NodeKind::Impl, "From<"@ + from_name + "> for "@ + to_name).with_child(
        NodeView::leaf(NodeKind::Method, "from"@).with_param("from"@, from_name).with_return_type(
            "Self"@,
        ).with_child(NodeView::leaf(NodeKind::Other, "Self"@).with_body(conversions(mappings))),
    )
}

fn field_present(record: &Node, field: &str) -> (present: bool)
    ensures
        present == has_field(record@, field@),
{
    let mut i: usize = 0;
    while i < record.params.len()
        invariant
            i <= record.params@.len(),
            forall|k: int| 0 <= k < i ==> (#[trigger] record@.params[k]).name != field@,
        decreases record.params@.len() - i,
    {
        if str_equal(record.params[i].name.as_str(), field) {
            assert(record@.params[i as int].name == field@);
            return true;
        }
        i = i + 1;
    }
    false
}

/// Builds the conversion from the record `from` to the record `to` that
/// `field_mappings` states, each pair a field of `from` and the field of
/// `to` that takes its value. The mapping is checked before anything is
/// built: a pair that names a field which its record does not have is an
/// error, and no fragment is handed back.
pub fn generate_from_impl(from: &Node, to: &Node, field_mappings: Vec<(&str, &str)>) -> (outcome:
    Result<Node, MappingError>)
    ensures
        match mapping_fault(from@, to@, mappings_of(field_mappings@)) {
            None => outcome is Ok && outcome->Ok_0@ == from_impl_node(
                from@.name,
                to@.name,
                mappings_of(field_mappings@),
            ),
            Some(fault) => outcome is Err && outcome->Err_0@ == fault,
        },
{
    let ghost mappings = mappings_of(field_mappings@);
    let mut i: usize = 0;
    assert(mappings.skip(0) =~= mappings);
    while i < field_mappings.len()
        invariant
            i <= field_mappings@.len(),
            mappings == mappings_of(field_mappings@),
            mapping_fault(from@, to@, mappings) == mapping_fault(
                from@,
                to@,
                mappings.skip(i as int),
            ),
        decreases field_mappings@.len() - i,
    {
        let ghost rest = mappings.skip(i as int);
        assert(rest[0] == mappings[i as int]);
        assert(rest.skip(1) =~= mappings.skip(i + 1));
        if !field_present(from, field_mappings[i].0) {
            return Err(MappingError::UnknownSourceField(String::from_str(field_mappings[i].0)));
        }
        if !field_present(to, field_mappings[i].1) {
            return Err(MappingError::UnknownTargetField(String::from_str(field_mappings[i].1)));
        }
        i = i + 1;
    }
    let mut literal = Node::new(NodeKind::Other, "Self");
    let ghost start = literal@;
    let mut k: usize = 0;
    assert(start.with_body(conversions(mappings).take(0)) == start) by {
        assert(conversions(mappings).take(0) =~= start.body);
    }
    while k < field_mappings.len()
        invariant
            k <= field_mappings@.len(),
            mappings == mappings_of(field_mappings@),
            literal@ == start.with_body(conversions(mappings).take(k as int)),
        decreases field_mappings@.len() - k,
    {
        let text = concat3(field_mappings[k].1, ": from.", field_mappings[k].0);
        literal.add_child(Node::statement(text.as_str()));
        assert(conversions(mappings).take(k + 1) =~= conversions(mappings).take(k as int).push(
            conversion(mappings[k as int]),
        ));
        k = k + 1;
    }
    assert(conversions(mappings).take(field_mappings@.len() as int) =~= conversions(mappings));
    let mut function = Node::new(NodeKind::Method, "from");
    function.add_param("from", from.name.as_str());
    function.set_return_type("Self");
    function.add_child(literal);
    let mut name = String::from_str("From<");
    name.append(from.name.as_str());
    name.append("> for ");
    name.append(to.name.as_str());
    let mut block = Node::new(NodeKind::Impl, name.as_str());
    block.add_child(function);
    Ok(block)
}

/// A mapping whose every pair names fields that the records have is
/// without fault.
pub proof fn lemma_valid_mapping_has_no_fault(
    from: NodeView,
    to: NodeView,
    mappings: Seq<(Seq<char>, Seq<char>)>,
)
    requires
        forall|i: int|
            0 <= i < mappings.len() ==> has_field(from, (#[trigger] mappings[i]).0) && has_field(
                to,
                mappings[i].1,
            ),
    ensures
        mapping_fault(from, to, mappings) is None,
        conversions(mappings).len() == mappings.len(),
    decreases mappings.len(),
{
    if mappings.len() > 0 {
        assert(has_field(from, mappings[0].0) && has_field(to, mappings[0].1));
        assert forall|i: int| 0 <= i < mappings.skip(1).len() implies has_field(
            from,
            (#[trigger] mappings.skip(1)[i]).0,
        ) && has_field(to, mappings.skip(1)[i].1) by {
            assert(mappings.skip(1)[i] == mappings[i + 1]);
        }
        lemma_valid_mapping_has_no_fault(from, to, mappings.skip(1));
    }
}

/// A mapping with a pair that names a field which its record does not
/// have is at fault, wherever the pair stands.
pub proof fn lemma_unknown_field_is_a_fault(
    from: NodeView,
    to: NodeView,
    mappings: Seq<(Seq<char>, Seq<char>)>,
    at: int,
)
    requires
        0 <= at < mappings.len(),
        !has_field(from, mappings[at].0) || !has_field(to, mappings[at].1),
    ensures
        mapping_fault(from, to, mappings) is Some,
    decreases mappings.len(),
{
    if at > 0 && has_field(from, mappings[0].0) && has_field(to, mappings[0].1) {
        assert(mappings.skip(1)[at - 1] == mappings[at]);
        lemma_unknown_field_is_a_fault(from, to, mappings.skip(1), at - 1);
    }
}

/// The receiver of a method that reads its object.
pub open spec fn with_receiver(node: NodeView) -> NodeView {
    node.with_receiver("&Self"@)
}

/// The method of a service that lists all entities.
pub open spec fn service_find_all(entity: Seq<char>) -> NodeView {
    with_receiver(NodeView::leaf(NodeKind::Method, "find_all"@).public().asynchronous())
        .with_return_type("Result<Vec<"@ + entity + ">, Error>"@).with_child(
        NodeView::statement("self.repository.find_all().await"@),
    )
}

/// The method of a service that looks one entity up.
pub open spec fn service_find_by_id(entity: Seq<char>) -> NodeView {
    with_receiver(NodeView::leaf(NodeKind::Method, "find_by_id"@).public().asynchronous())
        .with_param("id"@, "uuid::Uuid"@).with_return_type(
        "Result<Option<"@ + entity + ">, Error>"@,
    ).with_child(NodeView::statement("self.repository.find_by_id(id).await"@))
}

/// A method of a service that stores an entity: `create` and `update` are
/// such methods.
pub open spec fn service_save(name: Seq<char>, entity: Seq<char>) -> NodeView {
    with_receiver(NodeView::leaf(NodeKind::Method, name).public().asynchronous()).with_param(
        "entity"@,
        entity,
    ).with_return_type("Result<"@ + entity + ", Error>"@).with_child(
        NodeView::statement("self.repository.save(entity).await"@),
    )
}

/// The method of a service that removes an entity.
pub open spec fn service_delete() -> NodeView {
    with_receiver(NodeView::leaf(NodeKind::Method, "delete"@).public().asynchronous())
        .with_param("id"@, "uuid::Uuid"@).with_return_type("Result<(), Error>"@).with_child(
        NodeView::statement("self.repository.delete(id).await"@),
    )
}

/// The constructor that takes the one member `member` of type `ty`.
pub open spec fn constructor(member: Seq<char>, ty: Seq<char>) -> NodeView {
    NodeView::leaf(NodeKind::Method, "new"@).public().with_param(member, ty).with_return_type(
        "Self"@,
    ).with_child(NodeView::statement("Self { "@ + member + " }"@))
}

/// The service record of an entity: it holds the repository.
pub open spec fn service_record(entity: Seq<char>) -> NodeView {
    NodeView::leaf(NodeKind::Struct, entity + "Service"@).public().with_named_fields().with_param(
        "repository"@,
        entity + "Repository"@,
    )
}

/// The methods of the service of an entity: the constructor, then
/// `find_all`, `find_by_id`, `create`, `update` and `delete`.
pub open spec fn service_methods(entity: Seq<char>) -> NodeView {
    NodeView::leaf(NodeKind::Impl, entity + "Service"@).with_child(
        constructor("repository"@, entity + "Repository"@),
    ).with_child(service_find_all(entity)).with_child(service_find_by_id(entity)).with_child(
        service_save("create"@, entity),
    ).with_child(service_save("update"@, entity)).with_child(service_delete())
}

/// The service of an entity: its record, then its methods.
pub open spec fn service_nodes(entity: Seq<char>) -> Seq<NodeView> {
    seq![service_record(entity), service_methods(entity)]
}

fn build_find_all(entity: &str) -> (method: Node)
    ensures
        method@ == service_find_all(entity@),
{
    let mut method = Node::new(NodeKind::Method, "find_all");
    method.set_public();
    method.set_async();
    method.add_receiver("&Self");
    method.set_return_type(concat3("Result<Vec<", entity, ">, Error>").as_str());
    method.add_child(Node::statement("self.repository.find_all().await"));
    method
}

fn build_find_by_id(entity: &str) -> (method: Node)
    ensures
        method@ == service_find_by_id(entity@),
{
    let mut method = Node::new(NodeKind::Method, "find_by_id");
    method.set_public();
    method.set_async();
    method.add_receiver("&Self");
    method.add_param("id", "uuid::Uuid");
    method.set_return_type(concat3("Result<Option<", entity, ">, Error>").as_str());
    method.add_child(Node::statement("self.repository.find_by_id(id).await"));
    method
}

fn build_save(name: &str, entity: &str) -> (method: Node)
    ensures
        method@ == service_save(name@, entity@),
{
    let mut method = Node::new(NodeKind::Method, name);
    method.set_public();
    method.set_async();
    method.add_receiver("&Self");
    method.add_param("entity", entity);
    method.set_return_type(concat3("Result<", entity, ", Error>").as_str());
    method.add_child(Node::statement("self.repository.save(entity).await"));
    method
}

fn build_delete() -> (method: Node)
    ensures
        method@ == service_delete(),
{
    let mut method = Node::new(NodeKind::Method, "delete");
    method.set_public();
    method.set_async();
    method.add_receiver("&Self");
    method.add_param("id", "uuid::Uuid");
    method.set_return_type("Result<(), Error>");
    method.add_child(Node::statement("self.repository.delete(id).await"));
    method
}

fn build_constructor(member: &str, ty: &str) -> (method: Node)
    ensures
        method@ == constructor(member@, ty@),
{
    let mut method = Node::new(NodeKind::Method, "new");
    method.set_public();
    method.add_param(member, ty);
    method.set_return_type("Self");
    method.add_child(Node::statement(concat3("Self { ", member, " }").as_str()));
    method
}

/// Builds the service of the entity `entity_type`: a record that holds the
/// repository, and its methods.
pub fn generate_service(entity_type: &str) -> (service: Vec<Node>)
    ensures
        nodes_view(service@) == service_nodes(entity_type@),
{
    let service_name = concat2(entity_type, "Service");
    let repository_name = concat2(entity_type, "Repository");
    let mut record = Node::new(NodeKind::Struct, service_name.as_str());
    record.set_public();
    record.set_named_fields();
    record.add_param("repository", repository_name.as_str());
    let mut methods = Node::new(NodeKind::Impl, service_name.as_str());
    methods.add_child(build_constructor("repository", repository_name.as_str()));
    methods.add_child(build_find_all(entity_type));
    methods.add_child(build_find_by_id(entity_type));
    methods.add_child(build_save("create", entity_type));
    methods.add_child(build_save("update", entity_type));
    methods.add_child(build_delete());
    let mut service: Vec<Node> = Vec::new();
    service.push(record);
    service.push(methods);
    assert(nodes_view(service@) =~= service_nodes(entity_type@));
    service
}

/// The module `model` of an entity: the record of the entity itself.
pub open spec fn model_module(entity: Seq<char>) -> NodeView {
    NodeView::leaf(NodeKind::Module, "model"@).public().with_child(
        NodeView::statement("use serde::{Serialize, Deserialize};"@),
    ).with_child(
        NodeView::leaf(NodeKind::Struct, entity).public().with_named_fields().with_attribute(
            "#[derive(Debug, Clone, Serialize, Deserialize)]"@,
        ).with_field("id"@, "uuid::Uuid"@).with_field(
            "created_at"@,
            "chrono::DateTime<chrono::Utc>"@,
        ).with_field("updated_at"@, "chrono::DateTime<chrono::Utc>"@),
    )
}

/// A method that a repository declares: asynchronous, with a receiver,
/// perhaps one more parameter, and no body.
pub open spec fn repository_method(
    name: Seq<char>,
    param: Option<(Seq<char>, Seq<char>)>,
    return_type: Seq<char>,
) -> NodeView {
    let head = with_receiver(NodeView::leaf(NodeKind::Method, name).asynchronous());
    let full = match param {
        Some(pair) => head.with_param(pair.0, pair.1),
        None => head,
    };
    full.with_return_type(return_type)
}

/// The module `repository` of an entity: the trait that a store of the
/// entity implements.
pub open spec fn repository_module(entity: Seq<char>) -> NodeView {
    NodeView::leaf(NodeKind::Module, "repository"@).public().with_child(
        NodeView::statement("use super::model::"@ + entity + ";"@),
    ).with_child(NodeView::statement("use async_trait::async_trait;"@)).with_child(
        NodeView::leaf(NodeKind::Trait, entity + "Repository"@).public().with_attribute(
            "#[async_trait]"@,
        ).with_child(
            repository_method("find_all"@, None, "Result<Vec<"@ + entity + ">, Error>"@),
        ).with_child(
            repository_method(
                "find_by_id"@,
                Some(("id"@, "uuid::Uuid"@)),
                "Result<Option<"@ + entity + ">, Error>"@,
            ),
        ).with_child(
            repository_method(
                "save"@,
                Some(("entity"@, entity)),
                "Result<"@ + entity + ", Error>"@,
            ),
        ).with_child(
            repository_method("delete"@, Some(("id"@, "uuid::Uuid"@)), "Result<(), Error>"@),
        ),
    )
}

/// How the service of an entity holds its repository inside an
/// application.
pub open spec fn boxed_repository(entity: Seq<char>) -> Seq<char> {
    "Box<dyn "@ + entity + "Repository + Send + Sync>"@
}

/// The module `service` of an entity: the service record and its methods.
pub open spec fn service_module(entity: Seq<char>) -> NodeView {
    NodeView::leaf(NodeKind::Module, "service"@).public().with_child(
        NodeView::statement("use super::model::"@ + entity + ";"@),
    ).with_child(
        NodeView::statement("use super::repository::"@ + entity + "Repository;"@),
    ).with_child(
        NodeView::leaf(NodeKind::Struct, entity + "Service"@).public().with_named_fields().with_param(
            "repository"@,
            boxed_repository(entity),
        ),
    ).with_child(
        NodeView::leaf(NodeKind::Impl, entity + "Service"@).with_child(
            constructor("repository"@, boxed_repository(entity)),
        ).with_child(service_find_all(entity)),
    )
}

fn build_model_module(entity: &str) -> (module: Node)
    ensures
        module@ == model_module(entity@),
{
    let mut record = Node::new(NodeKind::Struct, entity);
    record.set_public();
    record.set_named_fields();
    record.add_attribute("#[derive(Debug, Clone, Serialize, Deserialize)]");
    record.add_field("id", "uuid::Uuid");
    record.add_field("created_at", "chrono::DateTime<chrono::Utc>");
    record.add_field("updated_at", "chrono::DateTime<chrono::Utc>");
    let mut module = Node::new(NodeKind::Module, "model");
    module.set_public();
    module.add_child(Node::statement("use serde::{Serialize, Deserialize};"));
    module.add_child(record);
    module
}

fn build_repository_method(name: &str, param: Option<(&str, &str)>, return_type: &str) -> (method:
    Node)
    ensures
        method@ == repository_method(
            name@,
            match param {
                Some(pair) => Some((pair.0@, pair.1@)),
                None => None,
            },
            return_type@,
        ),
{
    let mut method = Node::new(NodeKind::Method, name);
    method.set_async();
    method.add_receiver("&Self");
    match param {
        Some(pair) => {
            method.add_param(pair.0, pair.1);
        },
        None => {},
    }
    method.set_return_type(return_type);
    method
}

fn build_repository_module(entity: &str) -> (module: Node)
    ensures
        module@ == repository_module(entity@),
{
    let mut store = Node::new(NodeKind::Trait, concat2(entity, "Repository").as_str());
    store.set_public();
    store.add_attribute("#[async_trait]");
    store.add_child(
        build_repository_method(
            "find_all",
            None,
            concat3("Result<Vec<", entity, ">, Error>").as_str(),
        ),
    );
    store.add_child(
        build_repository_method(
            "find_by_id",
            Some(("id", "uuid::Uuid")),
            concat3("Result<Option<", entity, ">, Error>").as_str(),
        ),
    );
    store.add_child(
        build_repository_method(
            "save",
            Some(("entity", entity)),
            concat3("Result<", entity, ", Error>").as_str(),
        ),
    );
    store.add_child(
        build_repository_method("delete", Some(("id", "uuid::Uuid")), "Result<(), Error>"),
    );
    let mut module = Node::new(NodeKind::Module, "repository");
    module.set_public();
    module.add_child(Node::statement(concat3("use super::model::", entity, ";").as_str()));
    module.add_child(Node::statement("use async_trait::async_trait;"));
    module.add_child(store);
    module
}

fn build_service_module(entity: &str) -> (module: Node)
    ensures
        module@ == service_module(entity@),
{
    let service_name = concat2(entity, "Service");
    let held = concat3("Box<dyn ", entity, "Repository + Send + Sync>");
    let mut record = Node::new(NodeKind::Struct, service_name.as_str());
    record.set_public();
    record.set_named_fields();
    record.add_param("repository", held.as_str());
    let mut methods = Node::new(NodeKind::Impl, service_name.as_str());
    methods.add_child(build_constructor("repository", held.as_str()));
    methods.add_child(build_find_all(entity));
    let mut module = Node::new(NodeKind::Module, "service");
    module.set_public();
    module.add_child(Node::statement(concat3("use super::model::", entity, ";").as_str()));
    module.add_child(
        Node::statement(concat3("use super::repository::", entity, "Repository;").as_str()),
    );
    module.add_child(record);
    module.add_child(methods);
    module
}

/// The handler of a controller that lists all entities: it answers with
/// the entities, or with a server error where the service fails.
pub open spec fn controller_get_all() -> NodeView {
    with_receiver(NodeView::leaf(NodeKind::Method, "get_all"@).public().asynchronous())
        .with_return_type("impl Responder"@).with_child(
        NodeView::leaf(NodeKind::MatchExpression, "self.service.find_all().await"@).with_child(
            NodeView::leaf(NodeKind::MatchArm, "Ok(entities)"@).with_child(
                NodeView::statement("HttpResponse::Ok().json(entities)"@),
            ),
        ).with_child(
            NodeView::leaf(NodeKind::MatchArm, "Err(_)"@).with_child(
                NodeView::statement("HttpResponse::InternalServerError().finish()"@),
            ),
        ),
    )
}

/// The statement that routes the requests for an entity to its controller.
/// The path is made from the name of the module.
pub open spec fn route_statement(module_name: Seq<char>) -> NodeView {
    NodeView::statement(
        "cfg.service(web::resource(concat!(\"/\", stringify!("@ + module_name
            + "), \"s\")).route(web::get().to(move || controller.get_all())));"@,
    )
}

/// The function that registers the controller of an entity.
pub open spec fn controller_configure(entity: Seq<char>, module_name: Seq<char>) -> NodeView {
    NodeView::leaf(NodeKind::Function, "configure"@).public().with_member(
        ParamView::written("cfg"@, "&mut web::ServiceConfig"@, true, false),
    ).with_param("controller"@, entity + "Controller"@).with_child(route_statement(module_name))
}

/// The module `controller` of an entity: the controller record, its
/// methods, and the function that registers it.
pub open spec fn controller_module(entity: Seq<char>, module_name: Seq<char>) -> NodeView {
    NodeView::leaf(NodeKind::Module, "controller"@).public().with_child(
        NodeView::statement("use super::model::"@ + entity + ";"@),
    ).with_child(NodeView::statement("use super::service::"@ + entity + "Service;"@)).with_child(
        NodeView::statement("use actix_web::{web, HttpResponse, Responder};"@),
    ).with_child(
        NodeView::leaf(NodeKind::Struct, entity + "Controller"@).public().with_named_fields().with_param(
            "service"@,
            entity + "Service"@,
        ),
    ).with_child(
        NodeView::leaf(NodeKind::Impl, entity + "Controller"@).with_child(
            constructor("service"@, entity + "Service"@),
        ).with_child(controller_get_all()),
    ).with_child(controller_configure(entity, module_name))
}

/// The module of an entity, called `module_name`: the modules `model`,
/// `repository`, `service` and `controller`.
pub open spec fn entity_module(entity: Seq<char>, module_name: Seq<char>) -> NodeView {
    NodeView::leaf(NodeKind::Module, module_name).public().with_child(
        NodeView::statement("use super::*;"@),
    ).with_child(model_module(entity)).with_child(repository_module(entity)).with_child(
        service_module(entity),
    ).with_child(controller_module(entity, module_name))
}

/// The statement of the application set-up that registers the controller
/// of an entity.
pub open spec fn registration(entity: Seq<char>, module_name: Seq<char>) -> NodeView {
    NodeView::statement(
        module_name + "::controller::configure(cfg, "@ + module_name + "::controller::"@ + entity
            + "Controller::new("@ + module_name + "::service::"@ + entity
            + "::new(Box::new())));"@,
    )
}

fn build_get_all() -> (method: Node)
    ensures
        method@ == controller_get_all(),
{
    let mut found = Node::new(NodeKind::MatchArm, "Ok(entities)");
    found.add_child(Node::statement("HttpResponse::Ok().json(entities)"));
    let mut failed = Node::new(NodeKind::MatchArm, "Err(_)");
    failed.add_child(Node::statement("HttpResponse::InternalServerError().finish()"));
    let mut outcome = Node::new(NodeKind::MatchExpression, "self.service.find_all().await");
    outcome.add_child(found);
    outcome.add_child(failed);
    let mut method = Node::new(NodeKind::Method, "get_all");
    method.set_public();
    method.set_async();
    method.add_receiver("&Self");
    method.set_return_type("impl Responder");
    method.add_child(outcome);
    method
}

fn build_controller_module(entity: &str, module_name: &str) -> (module: Node)
    ensures
        module@ == controller_module(entity@, module_name@),
{
    let controller_name = concat2(entity, "Controller");
    let service_name = concat2(entity, "Service");
    let mut record = Node::new(NodeKind::Struct, controller_name.as_str());
    record.set_public();
    record.set_named_fields();
    record.add_param("service", service_name.as_str());
    let mut methods = Node::new(NodeKind::Impl, controller_name.as_str());
    methods.add_child(build_constructor("service", service_name.as_str()));
    methods.add_child(build_get_all());
    let mut configure = Node::new(NodeKind::Function, "configure");
    configure.set_public();
    configure.add_member(Param::written("cfg", "&mut web::ServiceConfig", true, false));
    configure.add_param("controller", controller_name.as_str());
    configure.add_child(
        Node::statement(
            concat3(
                "cfg.service(web::resource(concat!(\"/\", stringify!(",
                module_name,
                "), \"s\")).route(web::get().to(move || controller.get_all())));",
            ).as_str(),
        ),
    );
    let mut module = Node::new(NodeKind::Module, "controller");
    module.set_public();
    module.add_child(Node::statement(concat3("use super::model::", entity, ";").as_str()));
    module.add_child(
        Node::statement(concat3("use super::service::", entity, "Service;").as_str()),
    );
    module.add_child(Node::statement("use actix_web::{web, HttpResponse, Responder};"));
    module.add_child(record);
    module.add_child(methods);
    module.add_child(configure);
    module
}

/// Builds the module of the entity `entity` under the name `module_name`.
pub fn generate_entity_module(entity: &str, module_name: &str) -> (module: Node)
    ensures
        module@ == entity_module(entity@, module_name@),
{
    let mut module = Node::new(NodeKind::Module, module_name);
    module.set_public();
    module.add_child(Node::statement("use super::*;"));
    module.add_child(build_model_module(entity));
    module.add_child(build_repository_module(entity));
    module.add_child(build_service_module(entity));
    module.add_child(build_controller_module(entity, module_name));
    module
}

/// Builds the statement of the application set-up that registers the
/// controller of the entity `entity`, whose module is `module_name`.
pub fn generate_registration(entity: &str, module_name: &str) -> (statement: Node)
    ensures
        statement@ == registration(entity@, module_name@),
{
    let mut text = String::from_str(module_name);
    text.append("::controller::configure(cfg, ");
    text.append(module_name);
    text.append("::controller::");
    text.append(entity);
    text.append("Controller::new(");
    text.append(module_name);
    text.append("::service::");
    text.append(entity);
    text.append("::new(Box::new())));");
    Node::statement(text.as_str())
}

/// The imports at the head of a generated application.
pub open spec fn app_imports() -> Seq<NodeView> {
    seq![
        NodeView::statement("use std::error::Error;"@),
        NodeView::statement("use uuid::Uuid;"@),
        NodeView::statement("use chrono::{DateTime, Utc};"@),
        NodeView::statement("use serde::{Serialize, Deserialize};"@),
    ]
}

/// The names of a list of entities.
pub open spec fn names_of(entities: Seq<&str>) -> Seq<Seq<char>> {
    Seq::new(entities.len(), |i: int| entities[i]@)
}

/// The modules of the entities, each under its module name, in order.
pub open spec fn entity_modules(entities: Seq<Seq<char>>, module_names: Seq<Seq<char>>) -> Seq<
    NodeView,
> {
    Seq::new(entities.len(), |i: int| entity_module(entities[i], module_names[i]))
}

/// The registrations of the entities, in order.
pub open spec fn registrations(entities: Seq<Seq<char>>, module_names: Seq<Seq<char>>) -> Seq<
    NodeView,
> {
    Seq::new(entities.len(), |i: int| registration(entities[i], module_names[i]))
}

/// The set-up function of a generated application: it registers the
/// controller of each entity.
pub open spec fn configure_app(entities: Seq<Seq<char>>, module_names: Seq<Seq<char>>) -> NodeView {
    NodeView::leaf(NodeKind::Function, "configure_app"@).public().with_member(
        ParamView::written("cfg"@, "&mut actix_web::web::ServiceConfig"@, true, false),
    ).with_body(registrations(entities, module_names))
}

/// A generated application: the imports, one module for each entity, and
/// the set-up function.
pub open spec fn app_structure(entities: Seq<Seq<char>>, module_names: Seq<Seq<char>>) -> Seq<
    NodeView,
> {
    app_imports() + entity_modules(entities, module_names) + seq![
        configure_app(entities, module_names),
    ]
}

/// The module names of the entities: their names in lower case.
pub open spec fn lowercased(entities: Seq<Seq<char>>) -> Seq<Seq<char>> {
    Seq::new(entities.len(), |i: int| lowercase(entities[i]))
}

/// Builds the application for `entity_types`, where the module of the
/// entity at each position is called as `module_names` says at that
/// position.
pub fn assemble_app_structure(entity_types: &Vec<&str>, module_names: &Vec<String>) -> (app: Vec<
    Node,
>)
    requires
        module_names@.len() == entity_types@.len(),
    ensures
        nodes_view(app@) == app_structure(names_of(entity_types@), module_names.deep_view()),
{
    let ghost entities = names_of(entity_types@);
    let ghost names = module_names.deep_view();
    let mut app: Vec<Node> = Vec::new();
    app.push(Node::statement("use std::error::Error;"));
    app.push(Node::statement("use uuid::Uuid;"));
    app.push(Node::statement("use chrono::{DateTime, Utc};"));
    app.push(Node::statement("use serde::{Serialize, Deserialize};"));
    assert(nodes_view(app@) =~= app_imports() + entity_modules(entities, names).take(0));
    let mut set_up = Node::new(NodeKind::Function, "configure_app");
    set_up.set_public();
    set_up.add_member(
        Param::written("cfg", "&mut actix_web::web::ServiceConfig", true, false),
    );
    let ghost start = set_up@;
    assert(start.with_body(registrations(entities, names).take(0)) == start) by {
        assert(registrations(entities, names).take(0) =~= start.body);
    }
    let mut i: usize = 0;
    while i < entity_types.len()
        invariant
            i <= entity_types@.len(),
            module_names@.len() == entity_types@.len(),
            entities == names_of(entity_types@),
            names == module_names.deep_view(),
            nodes_view(app@) == app_imports() + entity_modules(entities, names).take(i as int),
            set_up@ == start.with_body(registrations(entities, names).take(i as int)),
        decreases entity_types@.len() - i,
    {
        let ghost before = nodes_view(app@);
        let module = generate_entity_module(entity_types[i], module_names[i].as_str());
        app.push(module);
        set_up.add_child(generate_registration(entity_types[i], module_names[i].as_str()));
        proof {
            assert(entity_modules(entities, names).take(i + 1) =~= entity_modules(
                entities,
                names,
            ).take(i as int).push(entity_module(entities[i as int], names[i as int])));
            assert(registrations(entities, names).take(i + 1) =~= registrations(
                entities,
                names,
            ).take(i as int).push(registration(entities[i as int], names[i as int])));
            assert(nodes_view(app@) =~= before.push(
                entity_module(entities[i as int], names[i as int]),
            ));
        }
        i = i + 1;
    }
    proof {
        assert(entity_modules(entities, names).take(entity_types@.len() as int)
            =~= entity_modules(entities, names));
        assert(registrations(entities, names).take(entity_types@.len() as int) =~= registrations(
            entities,
            names,
        ));
    }
    let ghost before = nodes_view(app@);
    app.push(set_up);
    assert(nodes_view(app@) =~= before.push(configure_app(entities, names)));
    app
}

/// Builds the application for `entity_types`: the imports, one module for
/// each entity, called by the entity's name in lower case, and the set-up
/// function that registers every controller.
pub fn generate_app_structure(entity_types: Vec<&str>) -> (app: Vec<Node>)
    ensures
        nodes_view(app@) == app_structure(
            names_of(entity_types@),
            lowercased(names_of(entity_types@)),
        ),
{
    let mut module_names: Vec<String> = Vec::new();
    let mut i: usize = 0;
    while i < entity_types.len()
        invariant
            i <= entity_types@.len(),
            module_names@.len() == i,
            forall|k: int| 0 <= k < i ==> (#[trigger] module_names@[k])@ == lowercase(
                entity_types@[k]@,
            ),
        decreases entity_types@.len() - i,
    {
        module_names.push(to_lowercase(entity_types[i]));
        i = i + 1;
    }
    assert(module_names.deep_view() =~= lowercased(names_of(entity_types@)));
    assemble_app_structure(&entity_types, &module_names)
}

} // verus!
