//! What the gateway's MQTT client reads and writes: broker settings, the
//! messages it exchanges, the topics it uses, the control commands it obeys and
//! the bridge configurations it asks the broker to create.

use vstd::prelude::*;
use crate::text::{contains_text, last_segment, last_topic_segment, text_contains};

verus! {

/// Connection settings of the MQTT broker and of its HTTP API.
pub struct MqttVariables {
    pub broker_url: String,
    pub broker_port: String,
    pub broker_api_port: String,
    pub broker_auth_name: String,
    pub broker_auth_password: String,
    pub broker_process_topic: String,
    pub broker_handover_topic: String,
    pub broker_control_topic: String,
    pub broker_qos: i32,
}

/// An uplink in edge mode as published on the processing topic, with the
/// gateways that received and processed it (frequency and SNR as `f32` bits).
pub struct MqttJson {
    pub dev_eui: String,
    pub dev_addr: String,
    pub fcnt: u16,
    pub timestamp: String,
    pub frequency_bits: u32,
    pub data_rate: String,
    pub coding_rate: String,
    pub gtw_id: String,
    pub rx_gw: String,
    pub process_gw: String,
    pub gtw_channel: u32,
    pub gtw_rssi: i32,
    pub gtw_snr_bits: u32,
    pub payload: String,
}

/// An uplink handed over to another gateway, with the gateway that received it
/// (frequency and SNR as `f32` bits).
pub struct UnassociatedMqttJson {
    pub dev_eui: String,
    pub dev_addr: String,
    pub gw_id: String,
    pub gwmac: String,
    pub fcnt: u16,
    pub rx_gw: String,
    pub time: Option<String>,
    pub tmst: u32,
    pub freq_bits: u32,
    pub chan: Option<u32>,
    pub stat: Option<i32>,
    pub modu: String,
    pub datr: String,
    pub codr: String,
    pub rssi: Option<i32>,
    pub lsnr_bits: Option<u32>,
    pub size: u32,
    pub data: String,
}

/// A device assigned to this gateway by the application server.
pub struct NewAssignedDevice {
    pub dev_eui: String,
    pub dev_addr: String,
    pub edge_s_enc_key: String,
    pub edge_s_int_key: String,
}

/// A device assigned to another gateway.
pub struct NewUnassociatedDevice {
    pub dev_eui: String,
    pub dev_addr: String,
    pub assigned_gw: String,
}

/// A device to forget.
pub struct RemoveDevice {
    pub dev_addr: String,
}

/// The gateway's public information sent to the application server.
pub struct GWPubInfo {
    pub mqtt_port: String,
    pub pub_key: Vec<u8>,
}

/// Resource options of a broker bridge.
pub struct MqttBridgeResourceOpts {
    pub max_buffer_size: u32,
    pub query_mode: String,
    pub health_check_interval: String,
}

impl Default for MqttBridgeResourceOpts {
    fn default() -> (r: Self)
        ensures
            r.max_buffer_size == 104857600,
            r.query_mode@ == "sync"@,
            r.health_check_interval@ == "15s"@,
    {
        MqttBridgeResourceOpts {
            max_buffer_size: 104857600,
            query_mode: "sync".to_owned(),
            health_check_interval: "15s".to_owned(),
        }
    }
}

/// TLS settings of a broker bridge.
pub struct MqqtBridgeSslConfig {
    pub enable: bool,
}

impl Default for MqqtBridgeSslConfig {
    fn default() -> (r: Self)
        ensures
            !r.enable,
    {
        MqqtBridgeSslConfig { enable: false }
    }
}

/// The remote end of a bridge: a topic and the broker's placeholders for the
/// QoS, retain flag and payload of each message.
pub struct MqttBridgeRemoteOpts {
    pub topic: String,
    pub qos: String,
    pub retain: String,
    pub payload: String,
}

impl MqttBridgeRemoteOpts {
    /// The remote end on `topic`, passing QoS, retain flag and payload through.
    pub fn new(topic: String) -> (r: Self)
        ensures
            r.topic@ == topic@,
            r.qos@ == "${qos}"@,
            r.retain@ == "${retain}"@,
            r.payload@ == "${payload}"@,
    {
        MqttBridgeRemoteOpts {
            topic,
            qos: "${qos}".to_owned(),
            retain: "${retain}".to_owned(),
            payload: "${payload}".to_owned(),
        }
    }
}

/// The local end of a bridge: a topic.
pub struct MqttBridgeLocalOpts {
    pub topic: String,
}

impl MqttBridgeLocalOpts {
    /// The local end on `topic`.
    pub fn new(topic: String) -> (r: Self)
        ensures
            r.topic@ == topic@,
    {
        MqttBridgeLocalOpts { topic }
    }
}

/// The egress direction of a bridge (local topic to remote topic).
pub struct MqttBridgeEgressOpts {
    pub pool_size: u32,
    pub remote: MqttBridgeRemoteOpts,
    pub local: MqttBridgeLocalOpts,
}

impl MqttBridgeEgressOpts {
    /// Messages of `local_topic` go to `remote_topic`, over a pool of 8
    /// connections.
    pub fn new(local_topic: String, remote_topic: String) -> (r: Self)
        ensures
            r.pool_size == 8,
            r.remote.topic@ == remote_topic@,
            r.remote.qos@ == "${qos}"@,
            r.remote.retain@ == "${retain}"@,
            r.remote.payload@ == "${payload}"@,
            r.local.topic@ == local_topic@,
    {
        MqttBridgeEgressOpts {
            pool_size: 8,
            remote: MqttBridgeRemoteOpts::new(remote_topic),
            local: MqttBridgeLocalOpts::new(local_topic),
        }
    }
}

/// The ingress direction of a bridge. As the broker's configuration names
/// them, its `local` end carries the placeholders and its `remote` end is a
/// bare topic.
pub struct MqttBridgeIngressOpts {
    pub pool_size: u32,
    pub local: MqttBridgeRemoteOpts,
    pub remote: MqttBridgeLocalOpts,
}

impl MqttBridgeIngressOpts {
    /// Messages of `remote_topic` come in on `local_topic`, over a pool of 8
    /// connections.
    pub fn new(local_topic: String, remote_topic: String) -> (r: Self)
        ensures
            r.pool_size == 8,
            r.local.topic@ == local_topic@,
            r.local.qos@ == "${qos}"@,
            r.local.retain@ == "${retain}"@,
            r.local.payload@ == "${payload}"@,
            r.remote.topic@ == remote_topic@,
    {
        MqttBridgeIngressOpts {
            pool_size: 8,
            local: MqttBridgeRemoteOpts::new(local_topic),
            remote: MqttBridgeLocalOpts::new(remote_topic),
        }
    }
}

/// A bridge that copies local messages to a remote broker. `bridge_type` is
/// the broker's `type` setting.
pub struct MqttBridgeEgressConfig {
    pub name: String,
    pub bridge_type: String,
    pub enable: bool,
    pub bridge_mode: bool,
    pub resource_opts: MqttBridgeResourceOpts,
    pub server: String,
    pub proto_ver: String,
    pub username: String,
    pub password: String,
    pub ssl: MqqtBridgeSslConfig,
    pub egress: MqttBridgeEgressOpts,
}

/// `c` is the enabled MQTT v5 egress bridge named `name` to `server`, in
/// bridge mode, without TLS, with the default resource options (a buffer of
/// 100 MiB, synchronous queries, a health check every 15 s), logging in as
/// `username` with `password`, copying `local_topic` to `remote_topic` over a
/// pool of 8 connections and passing QoS, retain flag and payload through.
pub open spec fn is_egress_bridge(
    c: MqttBridgeEgressConfig,
    name: Seq<char>,
    server: Seq<char>,
    username: Seq<char>,
    password: Seq<char>,
    local_topic: Seq<char>,
    remote_topic: Seq<char>,
) -> bool {
    &&& c.name@ == name
    &&& c.bridge_type@ == "mqtt"@
    &&& c.enable
    &&& c.bridge_mode
    &&& c.resource_opts.max_buffer_size == 104857600
    &&& c.resource_opts.query_mode@ == "sync"@
    &&& c.resource_opts.health_check_interval@ == "15s"@
    &&& c.server@ == server
    &&& c.proto_ver@ == "v5"@
    &&& c.username@ == username
    &&& c.password@ == password
    &&& !c.ssl.enable
    &&& c.egress.pool_size == 8
    &&& c.egress.local.topic@ == local_topic
    &&& c.egress.remote.topic@ == remote_topic
    &&& c.egress.remote.qos@ == "${qos}"@
    &&& c.egress.remote.retain@ == "${retain}"@
    &&& c.egress.remote.payload@ == "${payload}"@
}

impl MqttBridgeEgressConfig {
    /// An enabled MQTT v5 egress bridge named `name` to `server`, in bridge
    /// mode, without TLS, with the default resource options.
    pub fn new(
        name: String,
        server: String,
        username: String,
        password: String,
        local_topic: String,
        remote_topic: String,
    ) -> (r: Self)
        ensures
            is_egress_bridge(r, name@, server@, username@, password@, local_topic@, remote_topic@),
    {
        MqttBridgeEgressConfig {
            name,
            bridge_type: "mqtt".to_owned(),
            enable: true,
            bridge_mode: true,
            resource_opts: MqttBridgeResourceOpts::default(),
            server,
            proto_ver: "v5".to_owned(),
            username,
            password,
            ssl: MqqtBridgeSslConfig::default(),
            egress: MqttBridgeEgressOpts::new(local_topic, remote_topic),
        }
    }
}

/// A bridge that copies remote messages to the local broker.
pub struct MqttBridgeIngressConfig {
    pub name: String,
    pub bridge_type: String,
    pub enable: bool,
    pub resource_opts: MqttBridgeResourceOpts,
    pub server: String,
    pub proto_ver: String,
    pub username: String,
    pub password: String,
    pub ssl: MqqtBridgeSslConfig,
    pub ingress: MqttBridgeIngressOpts,
}

/// `c` is the enabled MQTT v5 ingress bridge named `name` from `server`,
/// without TLS, with the default resource options, logging in as `username`
/// with `password`, copying `remote_topic` to `local_topic` over a pool of 8
/// connections and passing QoS, retain flag and payload through.
pub open spec fn is_ingress_bridge(
    c: MqttBridgeIngressConfig,
    name: Seq<char>,
    server: Seq<char>,
    username: Seq<char>,
    password: Seq<char>,
    local_topic: Seq<char>,
    remote_topic: Seq<char>,
) -> bool {
    &&& c.name@ == name
    &&& c.bridge_type@ == "mqtt"@
    &&& c.enable
    &&& c.resource_opts.max_buffer_size == 104857600
    &&& c.resource_opts.query_mode@ == "sync"@
    &&& c.resource_opts.health_check_interval@ == "15s"@
    &&& c.server@ == server
    &&& c.proto_ver@ == "v5"@
    &&& c.username@ == username
    &&& c.password@ == password
    &&& !c.ssl.enable
    &&& c.ingress.pool_size == 8
    &&& c.ingress.local.topic@ == local_topic
    &&& c.ingress.local.qos@ == "${qos}"@
    &&& c.ingress.local.retain@ == "${retain}"@
    &&& c.ingress.local.payload@ == "${payload}"@
    &&& c.ingress.remote.topic@ == remote_topic
}

impl MqttBridgeIngressConfig {
    /// An enabled MQTT v5 ingress bridge named `name` from `server`, without
    /// TLS, with the default resource options.
    pub fn new(
        name: String,
        server: String,
        username: String,
        password: String,
        local_topic: String,
        remote_topic: String,
    ) -> (r: Self)
        ensures
            is_ingress_bridge(r, name@, server@, username@, password@, local_topic@, remote_topic@),
    {
        MqttBridgeIngressConfig {
            name,
            bridge_type: "mqtt".to_owned(),
            enable: true,
            resource_opts: MqttBridgeResourceOpts::default(),
            server,
            proto_ver: "v5".to_owned(),
            username,
            password,
            ssl: MqqtBridgeSslConfig::default(),
            ingress: MqttBridgeIngressOpts::new(local_topic, remote_topic),
        }
    }
}

/// `a/b`: a topic below `a`.
pub open spec fn topic_join(a: Seq<char>, b: Seq<char>) -> Seq<char> {
    a + "/"@ + b
}

/// Joins two topic levels with `/`.
pub fn join_topic(a: &str, b: &str) -> (r: String)
    ensures
        r@ == topic_join(a@, b@),
{
    let mut r = a.to_owned();
    r.append("/");
    r.append(b);
    r
}

/// The topic on which the gateway `gw_id` receives handed-over frames.
pub fn handover_topic(handover_base_topic: &str, gw_id: &str) -> (r: String)
    ensures
        r@ == topic_join(handover_base_topic@, gw_id@),
{
    join_topic(handover_base_topic, gw_id)
}

/// The topic of a control command sent to the application server.
pub fn control_topic(control_base_topic: &str, command: &str) -> (r: String)
    ensures
        r@ == topic_join(control_base_topic@, command@),
{
    join_topic(control_base_topic, command)
}

/// `host:port`.
pub open spec fn host_port(host: Seq<char>, port: Seq<char>) -> Seq<char> {
    host + ":"@ + port
}

/// The address `host:port` of a broker or service.
pub fn broker_address(host: &str, port: &str) -> (r: String)
    ensures
        r@ == host_port(host@, port@),
{
    let mut r = host.to_owned();
    r.append(":");
    r.append(port);
    r
}

/// The base address of the broker's HTTP API.
pub open spec fn api_endpoint_spec(broker_url: Seq<char>, api_port: Seq<char>) -> Seq<char> {
    "http://"@ + broker_url + ":"@ + api_port + "/api/v5/"@
}

/// Builds the base address of the broker's HTTP API.
pub fn api_endpoint(broker_url: &str, api_port: &str) -> (r: String)
    ensures
        r@ == api_endpoint_spec(broker_url@, api_port@),
{
    let mut r = "http://".to_owned();
    r.append(broker_url);
    r.append(":");
    r.append(api_port);
    r.append("/api/v5/");
    r
}

/// The address at which bridges are created.
pub fn bridges_url(api_endpoint: &str) -> (r: String)
    ensures
        r@ == api_endpoint@ + "bridges"@,
{
    let mut r = api_endpoint.to_owned();
    r.append("bridges");
    r
}

/// The three bridges that connect the gateway's broker to the application
/// server's: the data bridge out, and the control bridge out and in.
pub struct AsBridges {
    pub data: MqttBridgeEgressConfig,
    pub control_egress: MqttBridgeEgressConfig,
    pub control_ingress: MqttBridgeIngressConfig,
}

/// The remote topic pattern under which the gateway's messages appear on the
/// application server's broker: `<gw_id>/${topic}`.
pub open spec fn gateway_remote_topic(gw_id: Seq<char>) -> Seq<char> {
    topic_join(gw_id, "${topic}"@)
}

/// Plans the bridges to the application server at `server`: the data bridge
/// `<gw_id>-as-data-bridge` from `data_topic`, and the control bridges
/// `<gw_id>-as-control-bridge-egress` and `<gw_id>-as-control-bridge-ingress`
/// on `control_topic`, all to `<gw_id>/${topic}` remotely.
pub fn as_bridges(
    gw_id: &str,
    server: &str,
    username: &str,
    password: &str,
    data_topic: &str,
    control_topic: &str,
) -> (r: AsBridges)
    ensures
        is_egress_bridge(
            r.data,
            gw_id@ + "-as-data-bridge"@,
            server@,
            username@,
            password@,
            data_topic@,
            gateway_remote_topic(gw_id@),
        ),
        is_egress_bridge(
            r.control_egress,
            gw_id@ + "-as-control-bridge-egress"@,
            server@,
            username@,
            password@,
            control_topic@,
            gateway_remote_topic(gw_id@),
        ),
        is_ingress_bridge(
            r.control_ingress,
            gw_id@ + "-as-control-bridge-ingress"@,
            server@,
            username@,
            password@,
            control_topic@,
            gateway_remote_topic(gw_id@),
        ),
{
    let mut data_name = gw_id.to_owned();
    data_name.append("-as-data-bridge");
    let mut egress_name = gw_id.to_owned();
    egress_name.append("-as-control-bridge-egress");
    let mut ingress_name = gw_id.to_owned();
    ingress_name.append("-as-control-bridge-ingress");
    let data = MqttBridgeEgressConfig::new(
        data_name,
        server.to_owned(),
        username.to_owned(),
        password.to_owned(),
        data_topic.to_owned(),
        join_topic(gw_id, "${topic}"),
    );
    let control_egress = MqttBridgeEgressConfig::new(
        egress_name,
        server.to_owned(),
        username.to_owned(),
        password.to_owned(),
        control_topic.to_owned(),
        join_topic(gw_id, "${topic}"),
    );
    let control_ingress = MqttBridgeIngressConfig::new(
        ingress_name,
        server.to_owned(),
        username.to_owned(),
        password.to_owned(),
        control_topic.to_owned(),
        join_topic(gw_id, "${topic}"),
    );
    AsBridges { data, control_egress, control_ingress }
}

/// Whether a bridge request went through: the broker answered with success,
/// or its answer says the bridge already exists.
pub fn bridge_request_accepted(success: bool, body: &str) -> (r: bool)
    ensures
        r == (success || contains_text(body@, "ALREADY_EXISTS"@)),
{
    success || text_contains(body, "ALREADY_EXISTS")
}

/// A command received on the control topic.
#[derive(Clone, Copy, PartialEq, Eq, Structural)]
pub enum ControlCommand {
    AddAssignedDevice,
    AddUnassignedDevice,
    RemoveAssignedDevice,
    RemoveUnassignedDevice,
    Unknown,
}

/// The command named by the last level of a control topic.
pub open spec fn control_command_spec(topic: Seq<char>) -> ControlCommand {
    let c = last_segment(topic);
    if c == "add_assigned_device"@ {
        ControlCommand::AddAssignedDevice
    } else if c == "add_unassigned_device"@ {
        ControlCommand::AddUnassignedDevice
    } else if c == "remove_assigned_device"@ {
        ControlCommand::RemoveAssignedDevice
    } else if c == "remove_unassigned_device"@ {
        ControlCommand::RemoveUnassignedDevice
    } else {
        ControlCommand::Unknown
    }
}

/// Reads the command of a control message from its topic.
pub fn control_command(topic: &str) -> (r: ControlCommand)
    ensures
        r == control_command_spec(topic@),
{
    let command = last_topic_segment(topic);
    if command == "add_assigned_device".to_owned() {
        ControlCommand::AddAssignedDevice
    } else if command == "add_unassigned_device".to_owned() {
        ControlCommand::AddUnassignedDevice
    } else if command == "remove_assigned_device".to_owned() {
        ControlCommand::RemoveAssignedDevice
    } else if command == "remove_unassigned_device".to_owned() {
        ControlCommand::RemoveUnassignedDevice
    } else {
        ControlCommand::Unknown
    }
}

} // verus!
