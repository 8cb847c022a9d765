use qor_com::api::{Builder, RuntimeBuilderImpl};

fn is_sync<T: Sync>(_val: T) {}

#[test]
fn builder_is_sync() {
    is_sync(RuntimeBuilderImpl::new());
}

#[test]
fn build_production_runtime() {}

#[test]
fn runtime_builds() {
    let runtime = RuntimeBuilderImpl::new().build();
    assert!(runtime.is_ok());
}
