use e2l_parser::mqtt_client::{
    api_endpoint, as_bridges, bridge_request_accepted, bridges_url, broker_address, control_command,
    control_topic, handover_topic, ControlCommand, MqqtBridgeSslConfig, MqttBridgeEgressConfig,
    MqttBridgeEgressOpts, MqttBridgeIngressConfig, MqttBridgeIngressOpts, MqttBridgeLocalOpts,
    MqttBridgeRemoteOpts, MqttBridgeResourceOpts,
};
use e2l_parser::mqtt_structs::{MqttJson, DEFAULT_FREQUENCY_BITS};

#[test]
fn mqtt_json_default_values() {
    let j = MqttJson::default();
    assert_eq!(j.dev_eui, "");
    assert_eq!(j.fcnt, 0);
    assert_eq!(f32::from_bits(j.frequency_bits), 868.1f32);
    assert_eq!(DEFAULT_FREQUENCY_BITS, 868.1f32.to_bits());
    assert_eq!(j.data_rate, "SF7BW125");
    assert_eq!(j.coding_rate, "4/5");
    assert_eq!(f32::from_bits(j.gtw_snr_bits), 0.0);
}

#[test]
fn bridge_option_constructors() {
    let r = MqttBridgeResourceOpts::default();
    assert_eq!(r.max_buffer_size, 104857600);
    assert_eq!(r.query_mode, "sync");
    assert_eq!(r.health_check_interval, "15s");
    assert!(!MqqtBridgeSslConfig::default().enable);
    let remote = MqttBridgeRemoteOpts::new("t".to_string());
    assert_eq!(remote.qos, "${qos}");
    assert_eq!(remote.retain, "${retain}");
    assert_eq!(remote.payload, "${payload}");
    assert_eq!(MqttBridgeLocalOpts::new("l".to_string()).topic, "l");
    let e = MqttBridgeEgressOpts::new("local".to_string(), "remote".to_string());
    assert_eq!(e.pool_size, 8);
    assert_eq!(e.local.topic, "local");
    assert_eq!(e.remote.topic, "remote");
    let i = MqttBridgeIngressOpts::new("local".to_string(), "remote".to_string());
    assert_eq!(i.local.topic, "local");
    assert_eq!(i.local.qos, "${qos}");
    assert_eq!(i.remote.topic, "remote");
}

#[test]
fn bridge_configs() {
    let e = MqttBridgeEgressConfig::new(
        "n".to_string(),
        "host:1883".to_string(),
        "u".to_string(),
        "p".to_string(),
        "l".to_string(),
        "r".to_string(),
    );
    assert_eq!(e.bridge_type, "mqtt");
    assert!(e.enable && e.bridge_mode);
    assert_eq!(e.proto_ver, "v5");
    assert_eq!(e.server, "host:1883");
    assert_eq!(e.egress.remote.topic, "r");
    let i = MqttBridgeIngressConfig::new(
        "n".to_string(),
        "s".to_string(),
        "u".to_string(),
        "p".to_string(),
        "l".to_string(),
        "r".to_string(),
    );
    assert_eq!(i.bridge_type, "mqtt");
    assert!(i.enable && !i.ssl.enable);
    assert_eq!(i.ingress.remote.topic, "r");
}

#[test]
fn application_server_bridges() {
    let b = as_bridges("gw-1", "as:1883", "user", "pw", "out/data", "control");
    assert_eq!(b.data.name, "gw-1-as-data-bridge");
    assert_eq!(b.data.egress.local.topic, "out/data");
    assert_eq!(b.data.egress.remote.topic, "gw-1/${topic}");
    assert_eq!(b.control_egress.name, "gw-1-as-control-bridge-egress");
    assert_eq!(b.control_egress.egress.local.topic, "control");
    assert_eq!(b.control_ingress.name, "gw-1-as-control-bridge-ingress");
    assert_eq!(b.control_ingress.ingress.local.topic, "control");
    assert_eq!(b.control_ingress.ingress.remote.topic, "gw-1/${topic}");
    assert_eq!(b.control_ingress.server, "as:1883");
    for c in [&b.data, &b.control_egress] {
        assert_eq!(c.bridge_type, "mqtt");
        assert!(c.enable && c.bridge_mode && !c.ssl.enable);
        assert_eq!(c.proto_ver, "v5");
        assert_eq!((c.username.as_str(), c.password.as_str()), ("user", "pw"));
        assert_eq!(c.server, "as:1883");
        assert_eq!(c.resource_opts.max_buffer_size, 104857600);
        assert_eq!(c.resource_opts.query_mode, "sync");
        assert_eq!(c.resource_opts.health_check_interval, "15s");
        assert_eq!(c.egress.pool_size, 8);
        assert_eq!(c.egress.remote.qos, "${qos}");
        assert_eq!(c.egress.remote.retain, "${retain}");
        assert_eq!(c.egress.remote.payload, "${payload}");
    }
    let i = &b.control_ingress;
    assert!(i.enable && !i.ssl.enable);
    assert_eq!(i.proto_ver, "v5");
    assert_eq!(i.bridge_type, "mqtt");
    assert_eq!((i.username.as_str(), i.password.as_str()), ("user", "pw"));
    assert_eq!(i.ingress.pool_size, 8);
    assert_eq!(i.ingress.local.qos, "${qos}");
    assert_eq!(i.ingress.local.payload, "${payload}");
}

#[test]
fn addresses_and_topics() {
    assert_eq!(api_endpoint("broker", "18083"), "http://broker:18083/api/v5/");
    assert_eq!(bridges_url("http://broker:18083/api/v5/"), "http://broker:18083/api/v5/bridges");
    assert_eq!(broker_address("broker", "1883"), "broker:1883");
    assert_eq!(handover_topic("handover", "gw-2"), "handover/gw-2");
    assert_eq!(control_topic("control", "pub_info"), "control/pub_info");
}

#[test]
fn bridge_request_outcomes() {
    assert!(bridge_request_accepted(true, ""));
    assert!(bridge_request_accepted(false, "{\"code\":\"ALREADY_EXISTS\"}"));
    assert!(!bridge_request_accepted(false, "{\"code\":\"BAD_REQUEST\"}"));
}

#[test]
fn control_commands() {
    assert!(control_command("control/add_assigned_device") == ControlCommand::AddAssignedDevice);
    assert!(control_command("a/b/add_unassigned_device") == ControlCommand::AddUnassignedDevice);
    assert!(control_command("remove_assigned_device") == ControlCommand::RemoveAssignedDevice);
    assert!(control_command("x/remove_unassigned_device") == ControlCommand::RemoveUnassignedDevice);
    assert!(control_command("x/remove_unassigned_device/") == ControlCommand::Unknown);
    assert!(control_command(&control_topic("base/gw", "add_assigned_device")) == ControlCommand::AddAssignedDevice);
}
