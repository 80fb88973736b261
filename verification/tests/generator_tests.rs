use ast_toolkit::derive_methods::derive_common_methods;
use ast_toolkit::generator::{
    generate_app_structure, generate_dto, generate_entity_module, generate_from_impl,
    generate_registration, generate_service, MappingError,
};
use ast_toolkit::tree::{Node, NodeKind, Param};

fn record(name: &str, fields: &[(&str, &str)]) -> Node {
    generate_dto(name, fields.to_vec())
}

fn child_names(node: &Node) -> Vec<&str> {
    node.body.iter().map(|child| child.name.as_str()).collect()
}

#[test]
fn dto_has_one_public_member_per_field() {
    let dto = generate_dto(
        "UserDto",
        vec![
            ("id", "uuid::Uuid"),
            ("username", "String"),
            ("email", "String"),
            ("created_at", "chrono::DateTime<chrono::Utc>"),
        ],
    );
    assert_eq!(dto.kind, NodeKind::Struct);
    assert_eq!(dto.name, "UserDto");
    assert!(dto.is_public);
    assert!(dto.named_fields);
    assert_eq!(
        dto.attributes,
        vec!["#[derive(Debug, Clone, serde::Serialize, serde::Deserialize)]"]
    );
    assert_eq!(
        dto.params,
        vec![
            Param::public("id", "uuid::Uuid"),
            Param::public("username", "String"),
            Param::public("email", "String"),
            Param::public("created_at", "chrono::DateTime<chrono::Utc>"),
        ]
    );
    assert!(dto.body.is_empty());
}

#[test]
fn dto_without_fields_is_an_empty_record() {
    let dto = generate_dto("Empty", vec![]);
    assert!(dto.params.is_empty());
    assert_eq!(dto.name, "Empty");
}

#[test]
fn mapping_to_an_unknown_target_field_fails() {
    let a = record("A", &[("x", "u8")]);
    let b = record("B", &[("z", "u8")]);
    let outcome = generate_from_impl(&a, &b, vec![("x", "y")]);
    assert_eq!(outcome, Err(MappingError::UnknownTargetField("y".to_string())));
}

#[test]
fn mapping_from_an_unknown_source_field_fails() {
    let a = record("A", &[("x", "u8")]);
    let b = record("B", &[("y", "u8")]);
    let outcome = generate_from_impl(&a, &b, vec![("w", "y")]);
    assert_eq!(outcome, Err(MappingError::UnknownSourceField("w".to_string())));
}

#[test]
fn first_faulty_pair_is_reported_source_before_target() {
    let a = record("A", &[("x", "u8")]);
    let b = record("B", &[("y", "u8")]);
    let outcome = generate_from_impl(&a, &b, vec![("x", "y"), ("p", "q"), ("x", "r")]);
    assert_eq!(outcome, Err(MappingError::UnknownSourceField("p".to_string())));
    let outcome = generate_from_impl(&a, &b, vec![("x", "r"), ("p", "y")]);
    assert_eq!(outcome, Err(MappingError::UnknownTargetField("r".to_string())));
}

#[test]
fn valid_mapping_gives_one_conversion_per_field() {
    let user = record("User", &[("id", "u64"), ("username", "String"), ("email", "String")]);
    let dto = record("UserDto", &[("id", "u64"), ("name", "String"), ("email", "String")]);
    let block =
        generate_from_impl(&user, &dto, vec![("id", "id"), ("username", "name"), ("email", "email")])
            .unwrap();
    assert_eq!(block.kind, NodeKind::Impl);
    assert_eq!(block.name, "From<User> for UserDto");
    assert_eq!(block.body.len(), 1);
    let function = &block.body[0];
    assert_eq!(function.kind, NodeKind::Method);
    assert_eq!(function.name, "from");
    assert_eq!(function.params, vec![Param::new("from", "User")]);
    assert_eq!(function.return_type, Some("Self".to_string()));
    let literal = &function.body[0];
    assert_eq!(literal.name, "Self");
    assert_eq!(
        child_names(literal),
        vec!["id: from.id", "name: from.username", "email: from.email"]
    );
    assert!(literal.body.iter().all(|node| node.kind == NodeKind::Statement));
}

#[test]
fn empty_mapping_is_valid() {
    let a = record("A", &[]);
    let b = record("B", &[]);
    let block = generate_from_impl(&a, &b, vec![]).unwrap();
    assert!(block.body[0].body[0].body.is_empty());
}

#[test]
fn service_is_a_record_and_its_methods() {
    let service = generate_service("User");
    assert_eq!(service.len(), 2);
    assert_eq!(service[0].kind, NodeKind::Struct);
    assert_eq!(service[0].name, "UserService");
    assert_eq!(service[0].params, vec![Param::new("repository", "UserRepository")]);
    assert_eq!(service[1].kind, NodeKind::Impl);
    assert_eq!(service[1].name, "UserService");
    assert_eq!(
        child_names(&service[1]),
        vec!["new", "find_all", "find_by_id", "create", "update", "delete"]
    );
    let constructor = &service[1].body[0];
    assert!(!constructor.is_async);
    assert_eq!(constructor.body[0].name, "Self { repository }");
    let find_by_id = &service[1].body[2];
    assert!(find_by_id.is_async && find_by_id.is_public);
    assert_eq!(find_by_id.kind, NodeKind::Method);
    assert_eq!(
        find_by_id.params,
        vec![Param::receiver("&Self"), Param::new("id", "uuid::Uuid")]
    );
    assert_eq!(find_by_id.return_type, Some("Result<Option<User>, Error>".to_string()));
    assert_eq!(find_by_id.body[0].name, "self.repository.find_by_id(id).await");
    let update = &service[1].body[4];
    assert_eq!(update.return_type, Some("Result<User, Error>".to_string()));
    assert_eq!(update.body[0].name, "self.repository.save(entity).await");
}

#[test]
fn entity_module_holds_four_modules() {
    let module = generate_entity_module("Order", "order");
    assert_eq!(module.kind, NodeKind::Module);
    assert_eq!(module.name, "order");
    assert_eq!(
        child_names(&module),
        vec!["use super::*;", "model", "repository", "service", "controller"]
    );
    let model = &module.body[1];
    assert_eq!(model.body[1].name, "Order");
    assert_eq!(model.body[1].params.len(), 3);
    let repository = &module.body[2];
    assert_eq!(repository.body[0].name, "use super::model::Order;");
    let store = &repository.body[2];
    assert_eq!(store.kind, NodeKind::Trait);
    assert_eq!(store.name, "OrderRepository");
    assert_eq!(child_names(store), vec!["find_all", "find_by_id", "save", "delete"]);
    assert!(store.body.iter().all(|method| method.is_async && method.body.is_empty()));
    assert!(store.body.iter().all(|method| method.kind == NodeKind::Method));
    let service = &module.body[3];
    assert_eq!(
        service.body[2].params,
        vec![Param::new("repository", "Box<dyn OrderRepository + Send + Sync>")]
    );
    let controller = &module.body[4];
    assert_eq!(controller.body[3].name, "OrderController");
    let configure = &controller.body[5];
    assert_eq!(configure.kind, NodeKind::Function);
    assert_eq!(
        configure.body[0].name,
        "cfg.service(web::resource(concat!(\"/\", stringify!(order), \"s\")).route(web::get().to(move || controller.get_all())));"
    );
    let get_all = &controller.body[4].body[1];
    assert_eq!(get_all.body[0].kind, NodeKind::MatchExpression);
    assert_eq!(child_names(&get_all.body[0]), vec!["Ok(entities)", "Err(_)"]);
}

#[test]
fn registration_names_module_and_controller() {
    let statement = generate_registration("User", "user");
    assert_eq!(
        statement.name,
        "user::controller::configure(cfg, user::controller::UserController::new(user::service::User::new(Box::new())));"
    );
}

#[test]
fn app_structure_names_modules_in_lower_case() {
    let app = generate_app_structure(vec!["User", "Product", "Order"]);
    assert_eq!(app.len(), 4 + 3 + 1);
    assert_eq!(app[0].name, "use std::error::Error;");
    assert_eq!(app[3].name, "use serde::{Serialize, Deserialize};");
    assert_eq!(app[4].name, "user");
    assert_eq!(app[5].name, "product");
    assert_eq!(app[6].name, "order");
    assert_eq!(app[5], generate_entity_module("Product", "product"));
    let set_up = &app[7];
    assert_eq!(set_up.name, "configure_app");
    assert_eq!(set_up.kind, NodeKind::Function);
    assert_eq!(
        set_up.params,
        vec![Param::written("cfg", "&mut actix_web::web::ServiceConfig", true, false)]
    );
    assert_eq!(set_up.body.len(), 3);
    assert_eq!(set_up.body[2], generate_registration("Order", "order"));
}

#[test]
fn app_structure_without_entities_keeps_imports_and_set_up() {
    let app = generate_app_structure(vec![]);
    assert_eq!(app.len(), 5);
    assert!(app[4].body.is_empty());
}

#[test]
fn derive_gives_constructor_accessors_and_copy() {
    let mut user = Node::new(NodeKind::Struct, "User");
    user.set_named_fields();
    user.add_param("id", "u64");
    user.add_member(Param::written("name", "& 'static str", true, false));
    let block = derive_common_methods(&user);
    assert_eq!(block.kind, NodeKind::Impl);
    assert_eq!(block.name, "User");
    assert_eq!(
        child_names(&block),
        vec!["new", "id", "set_id", "name", "set_name", "clone_into"]
    );
    let constructor = &block.body[0];
    assert!(block.body.iter().all(|method| method.kind == NodeKind::Method));
    assert_eq!(
        constructor.params,
        vec![Param::new("id", "u64"), Param::written("name", "& 'static str", true, false)]
    );
    assert_eq!(constructor.body[0].name, "Self { id, name }");
    let getter = &block.body[3];
    assert_eq!(getter.params, vec![Param::receiver("&Self")]);
    assert_eq!(getter.return_type, Some("&& 'static str".to_string()));
    assert_eq!(getter.body[0].name, "&self.name");
    let setter = &block.body[4];
    assert_eq!(
        setter.params,
        vec![
            Param::receiver("&mut Self"),
            Param::written("value", "& 'static str", true, false)
        ]
    );
    assert_eq!(setter.return_type, Some("&mut Self".to_string()));
    assert_eq!(child_names(setter), vec!["self.name = value;", "self"]);
    let copy = &block.body[5];
    assert_eq!(copy.body[0].name, "Self { id: self.id.clone(), name: self.name.clone() }");
}

#[test]
fn derive_for_anything_else_gives_the_copy_alone() {
    let unit = Node::new(NodeKind::Struct, "Marker");
    let mut tuple = Node::new(NodeKind::Struct, "Pair");
    tuple.add_param("", "u8");
    tuple.add_param("", "u8");
    let mut other = Node::new(NodeKind::Enum, "Role");
    other.set_named_fields();
    other.add_param("x", "u8");
    for input in [unit, tuple, other] {
        let block = derive_common_methods(&input);
        assert_eq!(block.name, input.name);
        assert_eq!(child_names(&block), vec!["clone_into"]);
        assert_eq!(block.body[0].body[0].name, "Self {}");
    }
}

#[test]
fn derive_for_a_record_without_fields_gives_a_constructor() {
    let mut empty = Node::new(NodeKind::Struct, "Empty");
    empty.set_named_fields();
    let block = derive_common_methods(&empty);
    assert_eq!(child_names(&block), vec!["new", "clone_into"]);
    assert!(block.body[0].params.is_empty());
    assert_eq!(block.body[0].body[0].name, "Self {}");
    assert_eq!(block.body[1].body[0].name, "Self {}");
}

#[test]
fn derive_keeps_generics_and_where_clause() {
    let mut pair = Node::new(NodeKind::Struct, "Pair");
    pair.set_named_fields();
    pair.set_generics("< T : Clone >", "< T >", "where T : Send");
    pair.add_param("left", "T");
    let block = derive_common_methods(&pair);
    assert_eq!(block.name, "Pair");
    assert_eq!(block.generics, "< T : Clone >");
    assert_eq!(block.type_arguments, "< T >");
    assert_eq!(block.where_clause, "where T : Send");
    let plain = derive_common_methods(&Node::new(NodeKind::Struct, "Plain"));
    assert_eq!(plain.generics, "");
    assert_eq!(plain.where_clause, "");
}
