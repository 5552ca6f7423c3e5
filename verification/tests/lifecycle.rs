use vaccel::backend::Backend;
use vaccel::resources::{AnyResource, Resource, SharedObject, SingleModel};
use vaccel::session::Session;
use vaccel::torch::{Buffer, DataType, SavedModel, Tensor, TorchArgs, TorchJitLoadForward};
use vaccel::{Error, VACCEL_EINVAL};

fn float_bytes(values: &[f32]) -> Vec<u8> {
    let mut bytes: Vec<u8> = Vec::new();
    for v in values {
        bytes.extend_from_slice(&v.to_le_bytes());
    }
    bytes
}

#[test]
fn saved_model_starts_uninitialized() {
    let model = SavedModel::new();
    assert!(!model.initialized());
    assert_eq!(model.id(), 0);
    assert!(model.to_vaccel().is_none());
}

#[test]
fn saved_model_initialized_after_creation() {
    let mut backend = Backend::new();
    let model = SavedModel::new()
        .from_export_dir(&mut backend, "/models/example")
        .unwrap();
    assert!(model.initialized());
    assert!(model.id() > 0);
    let handle = model.to_vaccel().unwrap();
    assert_eq!(handle.id, model.id());
    assert!(backend.is_live(model.id()));
}

#[test]
fn saved_model_rejects_empty_path() {
    let mut backend = Backend::new();
    let r = SavedModel::new().from_export_dir(&mut backend, "");
    assert_eq!(r.err(), Some(Error::InvalidArgument));
    assert_eq!(backend.live_count(), 0);
}

#[test]
fn shared_object_rejects_empty_path() {
    let mut backend = Backend::new();
    let r = SharedObject::from_file(&mut backend, "");
    assert_eq!(r.err(), Some(Error::InvalidArgument));
    assert_eq!(backend.live_count(), 0);
}

#[test]
fn single_model_rejects_empty_buffer() {
    let mut backend = Backend::new();
    let r = SingleModel::from_buffer(&mut backend, &Vec::new());
    assert_eq!(r.err(), Some(Error::InvalidArgument));
    assert_eq!(backend.live_count(), 0);
}

#[test]
fn destroy_twice_never_crashes() {
    let mut backend = Backend::new();
    let mut obj = SharedObject::from_file(&mut backend, "/lib/plugin.so").unwrap();
    let id = obj.id();
    assert!(obj.destroy(&mut backend).is_ok());
    assert!(!obj.initialized());
    assert!(obj.to_vaccel().is_none());
    assert!(!backend.is_live(id));
    // second destroy is a no-op
    assert!(obj.destroy(&mut backend).is_ok());
    assert!(!obj.initialized());
}

#[test]
fn register_uninitialized_fails_and_keeps_session() {
    let mut backend = Backend::new();
    let mut sess = Session::new(&mut backend, 0).unwrap();
    let model = SavedModel::new();
    let r = sess.register(&model);
    assert_eq!(r.err(), Some(Error::InvalidArgument));
    assert_eq!(sess.registered_count(), 0);
    assert!(sess.is_open());
}

#[test]
fn register_records_resource_once() {
    let mut backend = Backend::new();
    let mut sess = Session::new(&mut backend, 0).unwrap();
    let model = SavedModel::new()
        .from_export_dir(&mut backend, "/models/example")
        .unwrap();
    assert!(sess.register(&model).is_ok());
    assert!(sess.is_registered(model.id()));
    assert_eq!(sess.registered_count(), 1);
    // registering again keeps a single link
    assert!(sess.register(&model).is_ok());
    assert_eq!(sess.registered_count(), 1);
}

#[test]
fn register_on_closed_session_fails() {
    let mut backend = Backend::new();
    let mut sess = Session::new(&mut backend, 0).unwrap();
    let model = SavedModel::new()
        .from_export_dir(&mut backend, "/models/example")
        .unwrap();
    sess.close().unwrap();
    let r = sess.register(&model);
    assert_eq!(r.err(), Some(Error::InvalidArgument));
    assert_eq!(sess.registered_count(), 0);
}

#[test]
fn set_deps_empty_list_is_noop_ok() {
    let mut backend = Backend::new();
    let obj = SharedObject::from_file(&mut backend, "/lib/plugin.so").unwrap();
    assert!(obj.set_deps(&mut backend, &Vec::new()).is_ok());
    assert!(obj.initialized());
    assert_eq!(backend.live_count(), 1);
}

#[test]
fn set_deps_on_uninitialized_fails() {
    let mut backend = Backend::new();
    let model = SavedModel::new();
    let deps: Vec<i64> = vec![1];
    assert_eq!(
        model.set_deps(&mut backend, &deps).err(),
        Some(Error::InvalidArgument)
    );
}

#[test]
fn set_deps_with_unknown_ids_fails_runtime() {
    let mut backend = Backend::new();
    let obj = SharedObject::from_file(&mut backend, "/lib/plugin.so").unwrap();
    let deps: Vec<i64> = vec![9999];
    let r = obj.set_deps(&mut backend, &deps);
    assert_eq!(r.err(), Some(Error::Runtime(VACCEL_EINVAL)));
    // resource and backend state unchanged
    assert!(obj.initialized());
    assert_eq!(backend.live_count(), 1);
}

#[test]
fn set_deps_with_known_ids_succeeds() {
    let mut backend = Backend::new();
    let dep = SharedObject::from_file(&mut backend, "/lib/base.so").unwrap();
    let obj = SharedObject::from_file(&mut backend, "/lib/plugin.so").unwrap();
    let deps: Vec<i64> = vec![dep.id()];
    assert!(obj.set_deps(&mut backend, &deps).is_ok());
}

#[test]
fn forward_on_unregistered_model_fails() {
    let mut backend = Backend::new();
    let mut sess = Session::new(&mut backend, 0).unwrap();
    let mut model = SavedModel::new()
        .from_export_dir(&mut backend, "/models/example")
        .unwrap();
    let mut args = TorchArgs::new();
    let mut jitload = TorchJitLoadForward::new();
    let r = jitload.jitload_forward(&mut sess, &mut args, &mut model);
    assert_eq!(r.err(), Some(Error::InvalidArgument));
}

#[test]
fn forward_after_close_fails() {
    let mut backend = Backend::new();
    let mut sess = Session::new(&mut backend, 0).unwrap();
    let mut model = SavedModel::new()
        .from_export_dir(&mut backend, "/models/example")
        .unwrap();
    sess.register(&model).unwrap();
    sess.close().unwrap();
    let mut args = TorchArgs::new();
    let mut jitload = TorchJitLoadForward::new();
    let r = jitload.jitload_forward(&mut sess, &mut args, &mut model);
    assert_eq!(r.err(), Some(Error::InvalidArgument));
}

#[test]
fn close_twice_fails_cleanly() {
    let mut backend = Backend::new();
    let mut sess = Session::new(&mut backend, 0).unwrap();
    assert!(sess.close().is_ok());
    assert_eq!(sess.close().err(), Some(Error::InvalidArgument));
}

#[test]
fn end_to_end_repeated_forward_without_leaks() {
    let mut backend = Backend::new();
    let mut sess = Session::new(&mut backend, 0).unwrap();
    let mut model = SavedModel::new()
        .from_export_dir(&mut backend, "/models/example")
        .unwrap();
    sess.register(&model).unwrap();

    let input_ids: Vec<f32> = (0..32).map(|i| i as f32).collect();
    let masks: Vec<f32> = vec![1.0; 32];
    let t1 = Tensor::new(DataType::Float, vec![1, 32])
        .with_data(float_bytes(&input_ids))
        .unwrap();
    let t2 = Tensor::new(DataType::Float, vec![1, 1, 32])
        .with_data(float_bytes(&masks))
        .unwrap();

    let mut args = TorchArgs::new();
    args.set_run_options(Buffer::new(Vec::new()));
    args.add_input(t1);
    args.add_input(t2);

    let mut jitload = TorchJitLoadForward::new();
    let live_before = backend.live_count();

    let result = jitload
        .jitload_forward(&mut sess, &mut args, &mut model)
        .unwrap();
    assert!(result.output_count() >= 1);
    let out = result.get_output(0, DataType::Float).unwrap();
    assert!(out.nr_dims() > 0);
    assert_eq!(out.dim(0).unwrap(), 1);
    assert_eq!(out.dim(1).unwrap(), 32);

    for _ in 0..100 {
        let result = jitload
            .jitload_forward(&mut sess, &mut args, &mut model)
            .unwrap();
        assert!(result.output_count() >= 1);
        assert_eq!(backend.live_count(), live_before);
    }

    assert!(sess.close().is_ok());
    assert!(model.destroy(&mut backend).is_ok());
    assert_eq!(backend.live_count(), live_before - 1);
}

#[test]
fn downcast_matches_stored_kind() {
    let mut backend = Backend::new();
    let model = SavedModel::new()
        .from_export_dir(&mut backend, "/models/example")
        .unwrap();
    let id = model.id();
    let any = AnyResource::SavedModel(model);
    assert!(any.as_saved_model().is_some());
    assert!(any.as_shared_object().is_none());
    assert!(any.as_single_model().is_none());
    assert_eq!(any.id(), id);
    assert!(any.initialized());
}

#[test]
fn downcast_destroy_through_capability() {
    let mut backend = Backend::new();
    let obj = SharedObject::from_file(&mut backend, "/lib/plugin.so").unwrap();
    let mut any = AnyResource::SharedObject(obj);
    assert!(any.destroy(&mut backend).is_ok());
    assert!(!any.initialized());
    assert_eq!(backend.live_count(), 0);
}
