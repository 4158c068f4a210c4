use giganto_proc_macro::classify::CastStrategy;
use giganto_proc_macro::declared::TypeSyntax;
use giganto_proc_macro::derive::{
    derive_from_graphql_client_autogen, derive_from_graphql_client_autogen_2,
};
use giganto_proc_macro::schema::{Annotation, ExtractError, FieldDefinition, TargetDefinition};

fn ty(text: &str) -> TypeSyntax {
    let ty: syn::Type = syn::parse_str(text).unwrap();
    TypeSyntax::read(&ty)
}

fn field(ident: &str, declared: &str, source_name: Option<&str>) -> FieldDefinition {
    FieldDefinition {
        ident: ident.to_string(),
        ty: ty(declared),
        annotation: match source_name {
            Some(name) => Annotation::Named(name.to_string()),
            None => Annotation::Absent,
        },
    }
}

fn definition(ident: &str, source: &str, fields: Vec<FieldDefinition>) -> TargetDefinition {
    TargetDefinition {
        ident: ident.to_string(),
        annotation: Annotation::Named(source.to_string()),
        fields,
    }
}

fn tokens(text: &str) -> String {
    let stream: proc_macro2::TokenStream = text.parse().unwrap();
    stream.to_string()
}

#[test]
fn zero_field_struct_literal() {
    let empty = definition("Empty", "Raw", Vec::new());
    let unit = derive_from_graphql_client_autogen_2(&empty).unwrap();
    assert_eq!(unit.target, "Empty");
    assert_eq!(unit.source_type, "Raw");
    assert!(unit.conversions.is_empty());
    let text = derive_from_graphql_client_autogen(&empty).unwrap();
    assert_eq!(
        tokens(&text),
        tokens(
            "impl From<Raw> for Empty {
                #[allow(clippy::cast_possible_truncation, clippy::cast_sign_loss)]
                fn from(node: Raw) -> Self { Self {} }
            }"
        )
    );
    assert!(!text.contains("node."));
}

#[test]
fn narrowing_of_a_port() {
    let target = definition("Target", "Raw", vec![field("port", "u16", None)]);
    let unit = derive_from_graphql_client_autogen_2(&target).unwrap();
    assert_eq!(unit.conversions.len(), 1);
    assert_eq!(unit.conversions[0].local_name, "port");
    assert_eq!(unit.conversions[0].source_name, "port");
    assert_eq!(unit.conversions[0].strategy, CastStrategy::ScalarForceCast);
    let text = derive_from_graphql_client_autogen(&target).unwrap();
    assert!(text.contains("port: node.port as _,"));
}

#[test]
fn renamed_sequence() {
    let target = definition("Target", "Raw", vec![field("ids", "Vec<u8>", Some("raw_ids"))]);
    let unit = derive_from_graphql_client_autogen_2(&target).unwrap();
    assert_eq!(unit.conversions.len(), 1);
    assert_eq!(unit.conversions[0].local_name, "ids");
    assert_eq!(unit.conversions[0].source_name, "raw_ids");
    assert_eq!(unit.conversions[0].strategy, CastStrategy::ElementwiseForceCast);
    let text = derive_from_graphql_client_autogen(&target).unwrap();
    assert!(text.contains("ids: node.raw_ids.into_iter().map(|x| x as _).collect(),"));
}

#[test]
fn a_connection_event() {
    let target = definition(
        "ConnRawEvent",
        "conn_raw_events :: ConnRawEventsConnRawEventsEdgesNode",
        vec![
            field("timestamp", "DateTime", None),
            field("orig_port", "u16", None),
            field("proto", "u8", None),
            field("duration", "i64", None),
            field("service", "String", None),
            field("resp_pkts", "u64", None),
            field("ttl", "Vec<i32>", None),
            field("orig_filenames", "Vec<String>", None),
        ],
    );
    let text = derive_from_graphql_client_autogen(&target).unwrap();
    assert_eq!(
        tokens(&text),
        tokens(
            "impl From<conn_raw_events::ConnRawEventsConnRawEventsEdgesNode> for ConnRawEvent {
                #[allow(clippy::cast_possible_truncation, clippy::cast_sign_loss)]
                fn from(node: conn_raw_events::ConnRawEventsConnRawEventsEdgesNode) -> Self {
                    Self {
                        timestamp: node.timestamp,
                        orig_port: node.orig_port as _,
                        proto: node.proto as _,
                        duration: node.duration,
                        service: node.service,
                        resp_pkts: node.resp_pkts as _,
                        ttl: node.ttl.into_iter().map(|x| x as _).collect(),
                        orig_filenames: node.orig_filenames,
                    }
                }
            }"
        )
    );
}

#[test]
fn a_struct_that_syn_parsed_is_converted() {
    let ast: syn::DeriveInput = syn::parse_str(
        "pub struct DnsRawEvent {
            timestamp: DateTime,
            resp_port: u16,
            rtt: i64,
            ttl: std::vec::Vec<i32>,
            answer: Vec<String>,
            last_time: usize,
        }",
    )
    .unwrap();
    let mut fields = Vec::new();
    if let syn::Data::Struct(data) = &ast.data {
        for declared in data.fields.iter() {
            fields.push(FieldDefinition {
                ident: declared.ident.as_ref().unwrap().to_string(),
                ty: TypeSyntax::read(&declared.ty),
                annotation: Annotation::Absent,
            });
        }
    }
    assert_eq!(fields.len(), 6);
    let target = definition(&ast.ident.to_string(), "dns_raw_events::Node", fields);
    let text = derive_from_graphql_client_autogen(&target).unwrap();
    assert_eq!(
        tokens(&text),
        tokens(
            "impl From<dns_raw_events::Node> for DnsRawEvent {
                #[allow(clippy::cast_possible_truncation, clippy::cast_sign_loss)]
                fn from(node: dns_raw_events::Node) -> Self {
                    Self {
                        timestamp: node.timestamp,
                        resp_port: node.resp_port as _,
                        rtt: node.rtt,
                        ttl: node.ttl.into_iter().map(|x| x as _).collect(),
                        answer: node.answer,
                        last_time: node.last_time as _,
                    }
                }
            }"
        )
    );
    let item: syn::ItemImpl = syn::parse_str(&text).unwrap();
    assert_eq!(item.items.len(), 1);
}

#[test]
fn generation_fails_where_extraction_fails() {
    let mut target = definition("Target", "Raw", vec![field("port", "u16", None)]);
    target.annotation = Annotation::Absent;
    assert_eq!(
        derive_from_graphql_client_autogen_2(&target),
        Err(ExtractError::MissingSourceType)
    );
    assert_eq!(derive_from_graphql_client_autogen(&target), Err(ExtractError::MissingSourceType));
    target.annotation = Annotation::Named("Raw".to_string());
    target.fields[0].annotation = Annotation::Malformed;
    assert_eq!(
        derive_from_graphql_client_autogen(&target),
        Err(ExtractError::MalformedAttribute("port".to_string()))
    );
}

#[test]
fn repeated_generation_is_identical() {
    let target = || {
        definition(
            "Target",
            "Raw",
            vec![field("port", "u16", None), field("ids", "Vec<u8>", Some("raw_ids"))],
        )
    };
    let first = derive_from_graphql_client_autogen(&target()).unwrap();
    let second = derive_from_graphql_client_autogen(&target()).unwrap();
    assert_eq!(first, second);
}
