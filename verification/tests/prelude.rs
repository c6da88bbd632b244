use flagship::prelude::{Metadata, MetadataBuilder, Service, ServiceSpec, ServiceSpecBuilder, ServiceType};

#[test]
fn objects_are_at_hand_in_one_place() {
    let service = Service::new(
        Metadata::builder("web-svc", "example")
            .with_label("app", "web")
            .build(),
        ServiceSpec::builder(ServiceType::LoadBalancer)
            .with_selector("app", "web")
            .with_port(80, 80, Some("web"))
            .build(),
    );
    assert_eq!(service.metadata().name(), "web-svc");
    assert_eq!(service.spec().selector().get("app"), Some(&"web".to_string()));
}
