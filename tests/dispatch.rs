use clack_core::error::{
    decimal_string, PluginError, PluginWrapperError, LOG_ERROR, LOG_HOST_MISBEHAVING, LOG_PLUGIN_MISBEHAVING,
};
use clack_core::wrapper::{finish_dispatch, from_raw, log_record, PluginWrapper};

type Wrapper = PluginWrapper<u32, (), u8>;
use std::cell::Cell;

#[test]
fn severities_match_the_abi() {
    assert_eq!(LOG_ERROR, clap_sys::ext::log::CLAP_LOG_ERROR);
    assert_eq!(LOG_HOST_MISBEHAVING, clap_sys::ext::log::CLAP_LOG_HOST_MISBEHAVING);
    assert_eq!(LOG_PLUGIN_MISBEHAVING, clap_sys::ext::log::CLAP_LOG_PLUGIN_MISBEHAVING);
}

#[test]
fn severity_classes() {
    assert_eq!(PluginWrapperError::Panic.severity(), LOG_PLUGIN_MISBEHAVING);
    assert_eq!(PluginWrapperError::NullPluginInstance.severity(), LOG_HOST_MISBEHAVING);
    assert_eq!(PluginWrapperError::DeactivatedPlugin.severity(), LOG_HOST_MISBEHAVING);
    let plugin = PluginWrapperError::from(PluginError { message: "bad".to_string() });
    assert_eq!(plugin.severity(), LOG_ERROR);
    let any = PluginWrapperError::with_severity(2, "slow".to_string());
    assert_eq!(any.severity(), 2);
    assert_eq!(any.message(), "slow");
}

#[test]
fn messages() {
    assert_eq!(PluginWrapperError::Panic.message(), "Plugin panicked");
    assert_eq!(
        PluginWrapperError::NullPluginInstance.message(),
        "Plugin method was called with null clap_plugin pointer"
    );
    assert_eq!(
        PluginWrapperError::NulPtr("events").message(),
        "Plugin method was called with null events pointer"
    );
    assert_eq!(PluginWrapperError::InvalidParameter("gain").message(), "Received invalid parameter 'gain'");
    assert_eq!(
        PluginWrapperError::DeactivationRequiredForFunction("set_ports").message(),
        "Host attempted to call 'set_ports' while plugin was still active"
    );
    assert_eq!(
        PluginWrapperError::StringEncoding(17).message(),
        "Encountered string containing invalid UTF-8 at position 17."
    );
    assert_eq!(
        PluginWrapperError::InvalidCString(0).message(),
        "Encountered string containing a NUL byte at position 0."
    );
    assert_eq!(PluginWrapperError::ActivatedPlugin.message(), "Plugin was already activated");
}

#[test]
fn decimal_digits() {
    assert_eq!(decimal_string(0), "0");
    assert_eq!(decimal_string(9), "9");
    assert_eq!(decimal_string(10), "10");
    assert_eq!(decimal_string(1203), "1203");
    assert_eq!(decimal_string(usize::MAX), usize::MAX.to_string());
}

#[test]
fn raw_pointer_checks() {
    assert!(matches!(from_raw(false, false), Err(PluginWrapperError::NullPluginInstance)));
    assert!(matches!(from_raw(false, true), Err(PluginWrapperError::NullPluginInstance)));
    assert!(matches!(from_raw(true, false), Err(PluginWrapperError::AlreadyDestroyed)));
    assert!(from_raw(true, true).is_ok());
}

#[test]
fn null_instance_never_reaches_handler() {
    let called = Cell::new(false);
    let w: Wrapper = PluginWrapper::new(1, ());
    let (value, log) = Wrapper::handle(false, Some(&w), |_| {
        called.set(true);
        Ok(5)
    });
    assert!(!called.get());
    assert_eq!(value, None);
    let log = log.unwrap();
    assert_eq!(log.severity, LOG_HOST_MISBEHAVING);
    assert_eq!(log.message, "Plugin method was called with null clap_plugin pointer");
}

#[test]
fn destroyed_instance_never_reaches_handler() {
    let called = Cell::new(false);
    let (value, log) = Wrapper::handle::<u32, _>(true, None, |_| {
        called.set(true);
        Ok(5)
    });
    assert!(!called.get());
    assert_eq!(value, None);
    assert_eq!(log.unwrap().severity, LOG_HOST_MISBEHAVING);
}

#[test]
fn dispatch_forwards_value_and_logs_errors() {
    let w: Wrapper = PluginWrapper::new(5, ());
    let (value, log) = Wrapper::handle(true, Some(&w), |w| Ok(*w.shared()));
    assert_eq!(value, Some(5));
    assert!(log.is_none());
    let (value, log) = Wrapper::handle::<u32, _>(true, Some(&w), |_| Err(PluginWrapperError::Panic));
    assert_eq!(value, None);
    let log = log.unwrap();
    assert_eq!(log.severity, LOG_PLUGIN_MISBEHAVING);
    assert_eq!(log.message, "Plugin panicked");
    let (value, log) = finish_dispatch::<u8>(Err(PluginWrapperError::DeactivatedPlugin));
    assert_eq!(value, None);
    assert_eq!(log.unwrap().message, "Plugin was not activated before calling a audio-thread method");
    let rec = log_record(&PluginWrapperError::AlreadyDestroyed);
    assert_eq!(rec.severity, LOG_HOST_MISBEHAVING);
}

#[test]
fn plugin_activate_and_deactivate() {
    let mut w: PluginWrapper<u32, String, Vec<u8>> = PluginWrapper::new(7, "main".to_string());
    assert!(!w.is_active());
    assert!(matches!(w.audio_processor(), Err(PluginWrapperError::DeactivatedPlugin)));
    assert!(matches!(w.deactivate(), Err(PluginWrapperError::DeactivatedPlugin)));
    assert!(w.activate(|shared, _| Ok(vec![*shared as u8])).is_ok());
    assert!(w.is_active());
    assert_eq!(w.audio_processor().ok(), Some(&vec![7u8]));
    assert_eq!(*w.shared(), 7);
    assert_eq!(w.main_thread(), "main");
    assert_eq!(w.deactivate().ok(), Some(vec![7u8]));
    assert!(!w.is_active());
}

#[test]
fn plugin_activate_twice_skips_activation_logic() {
    let mut w: PluginWrapper<u32, (), u8> = PluginWrapper::new(1, ());
    w.activate(|_, _| Ok(1)).unwrap();
    let called = Cell::new(false);
    let r = w.activate(|_, _| {
        called.set(true);
        Ok(2)
    });
    assert!(matches!(r, Err(PluginWrapperError::ActivatedPlugin)));
    assert!(!called.get());
    assert_eq!(w.audio_processor().ok(), Some(&1));
}

#[test]
fn plugin_activation_error_is_reported() {
    let mut w: PluginWrapper<u32, (), u8> = PluginWrapper::new(1, ());
    let r = w.activate(|_, _| Err(PluginError { message: "no memory".to_string() }));
    match r {
        Err(PluginWrapperError::Plugin(e)) => assert_eq!(e.message, "no memory"),
        _ => panic!("expected a plugin error"),
    }
    assert!(!w.is_active());
}

#[test]
fn plugin_facets_can_be_changed() {
    let mut w: PluginWrapper<u32, Vec<u8>, u8> = PluginWrapper::new(1, Vec::new());
    w.main_thread_mut().push(3);
    assert_eq!(w.main_thread(), &vec![3u8]);
    assert!(matches!(w.audio_processor_mut(), Err(PluginWrapperError::DeactivatedPlugin)));
    w.activate(|_, main: &mut Vec<u8>| {
        main.push(9);
        Ok(5)
    }).unwrap();
    assert_eq!(w.main_thread(), &vec![3u8, 9]);
    *w.audio_processor_mut().ok().unwrap() = 6;
    assert_eq!(w.audio_processor().ok(), Some(&6));
}
