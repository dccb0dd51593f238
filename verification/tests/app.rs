use jmtdd::Application;
use jmtdd::feat::foo::FakeFoo;
use jmtdd::feat::foo::Foo;
use jmtdd::feat::foo::FooApplicationBuilderExt;
use jmtdd::feat::foo::FooHandle;
use jmtdd::feat::foo::StubFoo;
use jmtdd::app::ApplicationBuilderError;

#[test]
fn create_an_app_with_default_features() {
    // Given a default application
    let app = Application::builder().build().unwrap();

    // When we use the feature
    let result = app.foo.run_foo();

    // We get 0 back
    assert_eq!(result, 0);
}

#[test]
#[should_panic]
fn create_an_app_and_substitute_the_foo_feature_with_something_else() {
    // Given an application where the feature was changed to a stub
    let app = Application::builder().with_foo(StubFoo).build().unwrap();

    // When we use the feature, we panic instead of running the business
    // logic
    app.foo.run_foo();
}

#[test]
fn overriding_the_feature_twice_installs_the_last_one() {
    let app = Application::builder()
        .with_foo(StubFoo)
        .with_foo(FakeFoo::default().with_value(7))
        .build()
        .unwrap();

    assert!(matches!(app.foo, FooHandle::Fake(_)));
    assert_eq!(app.foo.run_foo(), 7);
}

#[test]
fn builder_defaults_to_loopback_with_ephemeral_port() {
    let builder = Application::builder();
    assert!(builder.feature.is_none());
    let addr = builder.server_config.addr;
    assert_eq!((addr.ip0, addr.ip1, addr.ip2, addr.ip3), (127, 0, 0, 1));
    assert_eq!(addr.port, 0);
}

#[test]
fn default_application_has_no_background_task() {
    let app = Application::builder().build().unwrap();
    assert!(app.webserver.task.is_none());
    assert_eq!(app.webserver.config.addr.port, 0);
}

#[test]
fn application_builder_error_describes_itself() {
    let err = ApplicationBuilderError;
    assert_eq!(err.message(), "application builder error");
}
