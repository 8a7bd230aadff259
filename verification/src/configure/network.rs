//! The network of the target.
use vstd::prelude::*;

use crate::config::model::DeploymentConfig;
use crate::config::options::NetworkBackend;
use crate::configure::services;
use crate::effects;
use crate::plan;
use crate::plan::{extend, make_dir, say, set_mode, write_file, Act, Step};
use crate::text;
use crate::text::{chars_of, concat, concat3, Text};

verus! {

// -------------------------------------------------------------------------- UUIDs
/// A lower-case hexadecimal digit.
pub open spec fn hex_char(c: char) -> bool {
    text::digit(c) || 'a' <= c && c <= 'f'
}

/// The text of a random UUID: five groups of hexadecimal digits, the third of
/// which begins with its version and the fourth with its variant.
pub open spec fn random_uuid(t: Text) -> bool {
    &&& t.len() == 36
    &&& forall|i: int|
        0 <= i < 36 ==> if i == 8 || i == 13 || i == 18 || i == 23 {
            #[trigger] t[i] == '-'
        } else {
            hex_char(t[i])
        }
    &&& t[14] == '4'
    &&& t[19] == '8' || t[19] == '9' || t[19] == 'a' || t[19] == 'b'
}

/// `uuid::Uuid::new_v4`, shown: which UUID it is rests on chance, but it has the
/// form of a random one. It panics where the operating system gives no random
/// bytes.
#[verifier::external_body]
fn fresh_uuid() -> (r: String)
    ensures
        random_uuid(r@),
{
    uuid::Uuid::new_v4().to_string()
}

// ------------------------------------------------------------------ NetworkManager
pub const PROFILE_1: &'static str = r#"[connection]
id="#;

pub const PROFILE_2: &'static str = r#"
type=wifi
autoconnect=true

[wifi]
mode=infrastructure
ssid="#;

pub const PROFILE_3: &'static str = r#"
[ipv4]
method=auto

[ipv6]
method=auto
"#;

/// A connection of NetworkManager.
pub open spec fn wifi_profile_text(ssid: Text, uuid: Text, security: Text) -> Text {
    PROFILE_1@ + ssid + "\nuuid="@ + uuid + PROFILE_2@ + ssid + "\n"@ + security + PROFILE_3@
}

fn wifi_profile(ssid: &str, uuid: &str, security: &str) -> (r: String)
    ensures
        r@ == wifi_profile_text(ssid@, uuid@, security@),
{
    let mut s = PROFILE_1.to_owned();
    s.push_str(ssid);
    s.push_str("\nuuid=");
    s.push_str(uuid);
    s.push_str(PROFILE_2);
    s.push_str(ssid);
    s.push_str("\n");
    s.push_str(security);
    s.push_str(PROFILE_3);
    s
}

/// The part of a connection that holds its password.
pub open spec fn security_of(password: Option<Text>) -> Text {
    match password {
        Some(psk) => "\n[wifi-security]\nkey-mgmt=wpa-psk\npsk="@ + psk + "\n"@,
        None => ""@,
    }
}

/// A connection that NetworkManager takes up by itself. None but root may read it,
/// or it is not accepted.
pub open spec fn nm_steps(
    install_root: Text,
    ssid: Text,
    password: Option<Text>,
    uuid: Text,
) -> Seq<Act> {
    let dir = install_root + "/etc/NetworkManager/system-connections"@;
    seq![
        Act::MakeDir(dir),
        Act::Write {
            path: dir + "/"@ + ssid + ".nmconnection"@,
            content: wifi_profile_text(ssid, uuid, security_of(password)),
            mode: Some(0o600),
        },
    ]
}

/// Writes a connection under the given UUID.
pub fn preseed_wifi_networkmanager(
    install_root: &str,
    ssid: &str,
    password: Option<&str>,
    uuid: &str,
) -> (r: Vec<Step>)
    ensures
        plan::acts(r@) == nm_steps(install_root@, ssid@, plan::seen_str(password), uuid@),
{
    let mut steps: Vec<Step> = Vec::new();
    let security = match password {
        Some(psk) => concat3("\n[wifi-security]\nkey-mgmt=wpa-psk\npsk=", psk, "\n"),
        None => "".to_owned(),
    };
    let dir = concat(install_root, "/etc/NetworkManager/system-connections");
    make_dir(&mut steps, dir.as_str());
    write_file(
        &mut steps,
        concat(concat3(dir.as_str(), "/", ssid).as_str(), ".nmconnection").as_str(),
        wifi_profile(ssid, uuid, security.as_str()).as_str(),
        Some(0o600),
    );
    assert(plan::acts(steps@) =~= nm_steps(
        install_root@,
        ssid@,
        plan::seen_str(password),
        uuid@,
    ));
    steps
}

// ---------------------------------------------------------------------------- iwd
/// A character that iwd takes in a file name as it is.
pub open spec fn plain_char(c: char) -> bool {
    ||| text::digit(c)
    ||| 'a' <= c && c <= 'z'
    ||| 'A' <= c && c <= 'Z'
    ||| c == '-'
    ||| c == '_'
    ||| c == ' '
}

pub open spec fn plain_ssid(ssid: Text) -> bool {
    forall|i: int| 0 <= i < ssid.len() ==> plain_char(#[trigger] ssid[i])
}

/// The hexadecimal digit of a number below sixteen.
pub open spec fn hex_digit(n: int) -> char {
    if n < 10 {
        (('0' as int + n) as u32) as char
    } else {
        (('a' as int + n - 10) as u32) as char
    }
}

/// Bytes as hexadecimal digits, two for each.
pub open spec fn hex_of(bytes: Seq<u8>) -> Text
    decreases bytes.len(),
{
    if bytes.len() == 0 {
        seq![]
    } else {
        hex_of(bytes.drop_last()) + seq![
            hex_digit(bytes.last() as int / 16),
            hex_digit(bytes.last() as int % 16),
        ]
    }
}

/// The name of the file of a network, without its extension.
pub open spec fn iwd_stem(ssid: Text) -> Text {
    if plain_ssid(ssid) {
        ssid
    } else {
        "="@ + hex_of(vstd::utf8::encode_utf8(ssid))
    }
}

fn digit_of(n: u8) -> (r: char)
    requires
        n < 16,
    ensures
        r == hex_digit(n as int),
{
    let u: u8 = if n < 10 {
        48 + n
    } else {
        87 + n
    };
    u as char
}

fn hex_text(s: &str) -> (r: String)
    ensures
        r@ == hex_of(vstd::utf8::encode_utf8(s@)),
{
    let bytes = s.as_bytes();
    let mut out = String::new();
    let n: usize = bytes.len();
    let mut i: usize = 0;
    assert(bytes@.take(0) =~= seq![]);
    while i < n
        invariant
            n == bytes@.len(),
            i <= n,
            out@ == hex_of(bytes@.take(i as int)),
        decreases n - i,
    {
        let b: u8 = bytes[i];
        out.push(digit_of(b / 16));
        out.push(digit_of(b % 16));
        proof {
            assert(bytes@.take(i + 1).drop_last() =~= bytes@.take(i as int));
            assert(bytes@.take(i + 1).last() == b);
            assert(out@ =~= hex_of(bytes@.take(i + 1)));
        }
        i += 1;
    }
    assert(bytes@.take(i as int) =~= bytes@);
    out
}

fn is_plain_ssid(ssid: &str) -> (r: bool)
    ensures
        r == plain_ssid(ssid@),
{
    let v = chars_of(ssid);
    let mut i: usize = 0;
    while i < v.len()
        invariant
            i <= v@.len(),
            v@ == ssid@,
            forall|j: int| 0 <= j < i ==> plain_char(#[trigger] v@[j]),
        decreases v.len() - i,
    {
        let c = v[i];
        if !(('0' <= c && c <= '9') || ('a' <= c && c <= 'z') || ('A' <= c && c <= 'Z') || c == '-'
            || c == '_' || c == ' ') {
            assert(!plain_char(ssid@[i as int]));
            return false;
        }
        i += 1;
    }
    true
}

pub fn iwd_file_stem(ssid: &str) -> (r: String)
    ensures
        r@ == iwd_stem(ssid@),
{
    if is_plain_ssid(ssid) {
        ssid.to_owned()
    } else {
        concat("=", hex_text(ssid).as_str())
    }
}

/// Networks with different names get different files.
pub proof fn networks_do_not_share_files(a: Text, b: Text)
    requires
        iwd_stem(a) == iwd_stem(b),
    ensures
        a == b,
{
    reveal_strlit("=");
    broadcast use vstd::utf8::encode_utf8_decode_utf8;

    let x = vstd::utf8::encode_utf8(a);
    let y = vstd::utf8::encode_utf8(b);
    if !plain_ssid(a) && !plain_ssid(b) {
        assert(("="@ + hex_of(x)).skip(1) =~= hex_of(x));
        assert(("="@ + hex_of(y)).skip(1) =~= hex_of(y));
        lemma_hex_of(x, y);
        assert(vstd::utf8::decode_utf8(x) == a);
        assert(vstd::utf8::decode_utf8(y) == b);
    } else if plain_ssid(a) && !plain_ssid(b) {
        assert(a[0] == '=');
        assert(plain_char(a[0]));
    } else if !plain_ssid(a) && plain_ssid(b) {
        assert(b[0] == '=');
        assert(plain_char(b[0]));
    }
}

proof fn lemma_hex_digit(m: int, n: int)
    requires
        0 <= m < 16,
        0 <= n < 16,
        hex_digit(m) == hex_digit(n),
    ensures
        m == n,
{
}

proof fn lemma_hex_of(x: Seq<u8>, y: Seq<u8>)
    requires
        hex_of(x) == hex_of(y),
    ensures
        x == y,
    decreases x.len(),
{
    let p = hex_of(x);
    let q = hex_of(y);
    if x.len() == 0 || y.len() == 0 {
        assert(x =~= y);
    } else {
        let n = p.len() as int;
        assert(p[n - 1] == hex_digit(x.last() as int % 16));
        assert(q[n - 1] == hex_digit(y.last() as int % 16));
        assert(p[n - 2] == hex_digit(x.last() as int / 16));
        assert(q[n - 2] == hex_digit(y.last() as int / 16));
        lemma_hex_digit(x.last() as int % 16, y.last() as int % 16);
        lemma_hex_digit(x.last() as int / 16, y.last() as int / 16);
        assert(p.take(n - 2) =~= hex_of(x.drop_last()));
        assert(q.take(n - 2) =~= hex_of(y.drop_last()));
        lemma_hex_of(x.drop_last(), y.drop_last());
        assert(x =~= x.drop_last().push(x.last()));
        assert(y =~= y.drop_last().push(y.last()));
    }
}

/// A network that iwd takes up by itself.
pub open spec fn iwd_steps(install_root: Text, ssid: Text, password: Option<Text>) -> Seq<Act> {
    let dir = install_root + "/var/lib/iwd"@;
    seq![
        Act::MakeDir(dir),
        Act::SetMode { path: dir, mode: 0o700 },
        Act::Write {
            path: dir + "/"@ + iwd_stem(ssid) + (if password is Some {
                ".psk"@
            } else {
                ".open"@
            }),
            content: match password {
                Some(psk) => "[Security]\nPassphrase="@ + psk
                    + "\n\n[Settings]\nAutoConnect=true\n"@,
                None => "[Settings]\nAutoConnect=true\n"@,
            },
            mode: Some(0o600),
        },
    ]
}

pub fn preseed_wifi_iwd(install_root: &str, ssid: &str, password: Option<&str>) -> (r: Vec<Step>)
    ensures
        plan::acts(r@) == iwd_steps(install_root@, ssid@, plan::seen_str(password)),
{
    let mut steps: Vec<Step> = Vec::new();
    let dir = concat(install_root, "/var/lib/iwd");
    make_dir(&mut steps, dir.as_str());
    set_mode(&mut steps, dir.as_str(), 0o700);
    let start = concat3(dir.as_str(), "/", iwd_file_stem(ssid).as_str());
    match password {
        Some(psk) => {
            write_file(
                &mut steps,
                concat(start.as_str(), ".psk").as_str(),
                concat3(
                    "[Security]\nPassphrase=",
                    psk,
                    "\n\n[Settings]\nAutoConnect=true\n",
                ).as_str(),
                Some(0o600),
            );
        },
        None => {
            write_file(
                &mut steps,
                concat(start.as_str(), ".open").as_str(),
                "[Settings]\nAutoConnect=true\n",
                Some(0o600),
            );
        },
    }
    assert(plan::acts(steps@) =~= iwd_steps(install_root@, ssid@, plan::seen_str(password)));
    steps
}

// ------------------------------------------------------------------- configuration
/// The configuration of iwd.
pub const IWD_CONF: &'static str = r#"[General]
EnableNetworkConfiguration=true

[Network]
NameResolvingService=resolvconf
RoutePriorityOffset=300
EnableIPv6=true

[Scan]
DisablePeriodicScan=false
"#;

/// iwd on its own.
pub open spec fn configure_iwd_steps(install_root: Text, dry_run: bool) -> Seq<Act> {
    if dry_run {
        seq![
            Act::Say("  [dry-run] Would configure iwd at "@ + install_root + "/etc/iwd/main.conf"@),
        ]
    } else {
        seq![
            Act::MakeDir(install_root + "/etc/iwd"@),
            Act::Write {
                path: install_root + "/etc/iwd/main.conf"@,
                content: IWD_CONF@,
                mode: None,
            },
        ]
    }
}

fn configure_iwd(install_root: &str, dry_run: bool) -> (r: Vec<Step>)
    ensures
        plan::acts(r@) == configure_iwd_steps(install_root@, dry_run),
{
    let mut steps: Vec<Step> = Vec::new();
    if dry_run {
        say(
            &mut steps,
            concat3(
                "  [dry-run] Would configure iwd at ",
                install_root,
                "/etc/iwd/main.conf",
            ).as_str(),
        );
    } else {
        make_dir(&mut steps, concat(install_root, "/etc/iwd").as_str());
        write_file(&mut steps, concat(install_root, "/etc/iwd/main.conf").as_str(), IWD_CONF, None);
    }
    assert(plan::acts(steps@) =~= configure_iwd_steps(install_root@, dry_run));
    steps
}

/// NetworkManager over what drives the radio.
pub open spec fn configure_nm_with_backend_steps(
    install_root: Text,
    wifi_backend: Text,
    dry_run: bool,
) -> Seq<Act> {
    if dry_run {
        seq![
            Act::Say(
                "  [dry-run] Would configure NetworkManager at "@ + install_root
                    + "/etc/NetworkManager/conf.d/wifi-backend.conf (wifi.backend="@ + wifi_backend
                    + ")"@,
            ),
        ]
    } else {
        seq![
            Act::MakeDir(install_root + "/etc/NetworkManager/conf.d"@),
            Act::Write {
                path: install_root + "/etc/NetworkManager/conf.d/wifi-backend.conf"@,
                content: "[device]\nwifi.backend="@ + wifi_backend + "\n"@,
                mode: None,
            },
        ]
    }
}

fn configure_nm_with_backend(
    install_root: &str,
    wifi_backend: &str,
    dry_run: bool,
) -> (r: Vec<Step>)
    ensures
        plan::acts(r@) == configure_nm_with_backend_steps(install_root@, wifi_backend@, dry_run),
{
    let mut steps: Vec<Step> = Vec::new();
    if dry_run {
        say(
            &mut steps,
            concat3(
                concat3(
                    "  [dry-run] Would configure NetworkManager at ",
                    install_root,
                    "/etc/NetworkManager/conf.d/wifi-backend.conf (wifi.backend=",
                ).as_str(),
                wifi_backend,
                ")",
            ).as_str(),
        );
    } else {
        make_dir(&mut steps, concat(install_root, "/etc/NetworkManager/conf.d").as_str());
        write_file(
            &mut steps,
            concat(install_root, "/etc/NetworkManager/conf.d/wifi-backend.conf").as_str(),
            concat3("[device]\nwifi.backend=", wifi_backend, "\n").as_str(),
            None,
        );
    }
    assert(plan::acts(steps@) =~= configure_nm_with_backend_steps(
        install_root@,
        wifi_backend@,
        dry_run,
    ));
    steps
}

/// How a dry run shows that a network is handed over.
pub open spec fn preseed_shown(
    backend: NetworkBackend,
    ssid: Text,
    password: Option<Text>,
) -> Text {
    "  [dry-run] Would pre-seed Wi-Fi network '"@ + ssid + "' ("@ + (if password is Some {
        "WPA-PSK"@
    } else {
        "open"@
    }) + ", backend: "@ + backend.shown() + ")"@
}

/// Handing one network over to what manages the target's networks.
pub open spec fn preseed_steps(
    backend: NetworkBackend,
    install_root: Text,
    ssid: Text,
    password: Option<Text>,
    uuid: Text,
    dry_run: bool,
) -> Seq<Act> {
    if dry_run {
        seq![Act::Say(preseed_shown(backend, ssid, password))]
    } else if backend == NetworkBackend::Iwd {
        iwd_steps(install_root, ssid, password)
    } else {
        nm_steps(install_root, ssid, password, uuid)
    }
}

/// Hands a network over under the given UUID.
pub fn preseed_wifi(
    config: &DeploymentConfig,
    install_root: &str,
    ssid: &str,
    password: Option<&str>,
    uuid: &str,
    dry_run: bool,
) -> (r: Vec<Step>)
    ensures
        plan::acts(r@) == preseed_steps(
            config.network.backend,
            install_root@,
            ssid@,
            plan::seen_str(password),
            uuid@,
            dry_run,
        ),
{
    let backend = config.network.backend;
    if dry_run {
        let mut steps: Vec<Step> = Vec::new();
        let kind = if password.is_some() {
            "WPA-PSK"
        } else {
            "open"
        };
        let line = concat3("  [dry-run] Would pre-seed Wi-Fi network '", ssid, "' (");
        let line = concat3(line.as_str(), kind, ", backend: ");
        let line = concat3(line.as_str(), backend.to_text().as_str(), ")");
        say(&mut steps, line.as_str());
        assert(plan::acts(steps@) =~= seq![
            Act::Say(preseed_shown(backend, ssid@, plan::seen_str(password))),
        ]);
        return steps;
    }
    match backend {
        NetworkBackend::NetworkManager | NetworkBackend::NetworkManagerWpa => {
            preseed_wifi_networkmanager(install_root, ssid, password, uuid)
        },
        NetworkBackend::Iwd => preseed_wifi_iwd(install_root, ssid, password),
    }
}

pub open spec fn backend_steps(
    backend: NetworkBackend,
    install_root: Text,
    dry_run: bool,
) -> Seq<Act> {
    match backend {
        NetworkBackend::Iwd => configure_iwd_steps(install_root, dry_run),
        NetworkBackend::NetworkManager => configure_nm_with_backend_steps(
            install_root,
            "iwd"@,
            dry_run,
        ),
        NetworkBackend::NetworkManagerWpa => configure_nm_with_backend_steps(
            install_root,
            "wpa_supplicant"@,
            dry_run,
        ),
    }
}

/// The network of the target, a connection under the given UUID where one is asked
/// for.
pub open spec fn network_steps(
    config: DeploymentConfig,
    install_root: Text,
    uuid: Text,
    dry_run: bool,
) -> Seq<Act> {
    backend_steps(config.network.backend, install_root, dry_run) + match config.network.wifi_ssid {
        Some(ssid) => preseed_steps(
            config.network.backend,
            install_root,
            ssid@,
            plan::seen(config.network.wifi_password),
            uuid,
            dry_run,
        ),
        None => seq![],
    }
}

/// Configures the network, a connection under the given UUID.
pub fn configure_network_as(
    config: &DeploymentConfig,
    install_root: &str,
    uuid: &str,
    dry_run: bool,
) -> (r: Vec<Step>)
    ensures
        plan::acts(r@) == network_steps(*config, install_root@, uuid@, dry_run),
{
    let mut steps = match config.network.backend {
        NetworkBackend::Iwd => configure_iwd(install_root, dry_run),
        NetworkBackend::NetworkManager => configure_nm_with_backend(install_root, "iwd", dry_run),
        NetworkBackend::NetworkManagerWpa => configure_nm_with_backend(
            install_root,
            "wpa_supplicant",
            dry_run,
        ),
    };
    if let Some(ssid) = &config.network.wifi_ssid {
        let password = match &config.network.wifi_password {
            Some(p) => Some(p.as_str()),
            None => None,
        };
        extend(
            &mut steps,
            preseed_wifi(config, install_root, ssid.as_str(), password, uuid, dry_run),
        );
    }
    assert(plan::acts(steps@) =~= network_steps(*config, install_root@, uuid@, dry_run));
    steps
}

/// A profile of NetworkManager is written: only that bears a UUID.
pub open spec fn bears_uuid(config: DeploymentConfig, dry_run: bool) -> bool {
    !dry_run && config.network.backend != NetworkBackend::Iwd && config.network.wifi_ssid is Some
}

/// Configures the network, a connection under a fresh UUID. None is drawn where no
/// profile bears it.
pub fn configure_network(config: &DeploymentConfig, install_root: &str, dry_run: bool) -> (r: Vec<
    Step,
>)
    ensures
        bears_uuid(*config, dry_run) ==> exists|uuid: Text|
            #[trigger] random_uuid(uuid) && plan::acts(r@) == network_steps(
                *config,
                install_root@,
                uuid,
                dry_run,
            ),
        !bears_uuid(*config, dry_run) ==> forall|uuid: Text|
            plan::acts(r@) == #[trigger] network_steps(*config, install_root@, uuid, dry_run),
{
    if dry_run || config.network.backend == NetworkBackend::Iwd
        || config.network.wifi_ssid.is_none() {
        return configure_network_as(config, install_root, "", dry_run);
    }
    let uuid = fresh_uuid();
    let steps = configure_network_as(config, install_root, uuid.as_str(), dry_run);
    assert(random_uuid(uuid@));
    steps
}

// -------------------------------------------------------------------------- laws
/// The program that drives the radio and is told to NetworkManager is the one that starts
/// with the target, and the other one does not start.
pub proof fn network_manager_uses_what_starts(
    config: DeploymentConfig,
    install_root: Text,
    uuid: Text,
)
    requires
        config.network.backend != NetworkBackend::Iwd,
    ensures
        exists|used: Text, other: Text|
            #![trigger services::service_list(config).contains(used), services::service_list(
                config,
            ).contains(other)]
            {
                &&& used == "iwd"@ && other == "wpa_supplicant"@ || used == "wpa_supplicant"@
                    && other == "iwd"@
                &&& services::service_list(config).contains(used)
                &&& !services::service_list(config).contains(other)
                &&& services::service_list(config).contains("NetworkManager"@)
                &&& effects::leaves(
                    network_steps(config, install_root, uuid, false),
                    install_root + "/etc/NetworkManager/conf.d/wifi-backend.conf"@,
                    "[device]\nwifi.backend="@ + used + "\n"@,
                )
            },
{
    services::one_radio_program_starts(config);
    let path = install_root + "/etc/NetworkManager/conf.d/wifi-backend.conf"@;
    let a = backend_steps(config.network.backend, install_root, false);
    let b = match config.network.wifi_ssid {
        Some(ssid) => preseed_steps(
            config.network.backend,
            install_root,
            ssid@,
            plan::seen(config.network.wifi_password),
            uuid,
            false,
        ),
        None => seq![],
    };
    let used = if config.network.backend == NetworkBackend::NetworkManager {
        "iwd"@
    } else {
        "wpa_supplicant"@
    };
    let other = if config.network.backend == NetworkBackend::NetworkManager {
        "wpa_supplicant"@
    } else {
        "iwd"@
    };
    let content = "[device]\nwifi.backend="@ + used + "\n"@;
    assert(effects::touches(a[1], path));
    assert(effects::leaves(a, path, content));
    if let Some(ssid) = config.network.wifi_ssid {
        lemma_connection_is_no_setting(install_root, ssid@);
        assert(effects::untouched(b, path));
    }
    effects::lemma_leaves_sum(a, b, path, content);
    assert(services::service_list(config).contains(used));
    assert(!services::service_list(config).contains(other));
}

proof fn lemma_connection_is_no_setting(install_root: Text, ssid: Text)
    ensures
        install_root + "/etc/NetworkManager/system-connections"@ + "/"@ + ssid + ".nmconnection"@
            != install_root + "/etc/NetworkManager/conf.d/wifi-backend.conf"@,
{
    let a = "/etc/NetworkManager/system-connections"@ + "/"@ + ssid + ".nmconnection"@;
    let b = "/etc/NetworkManager/conf.d/wifi-backend.conf"@;
    reveal_strlit("/etc/NetworkManager/system-connections");
    reveal_strlit("/etc/NetworkManager/conf.d/wifi-backend.conf");
    assert(a[20] == 's' && b[20] == 'c');
    effects::lemma_paths_differ(install_root, a, b);
    assert(install_root + a =~= install_root + "/etc/NetworkManager/system-connections"@ + "/"@
        + ssid + ".nmconnection"@);
}

/// iwd on its own configures addresses by itself, since nothing else does.
pub proof fn lone_iwd_configures_addresses(config: DeploymentConfig, install_root: Text, uuid: Text)
    requires
        config.network.backend == NetworkBackend::Iwd,
        config.network.wifi_ssid is None,
    ensures
        exists|content: Text|
            text::lines_of(content).contains("EnableNetworkConfiguration=true"@)
                && #[trigger] effects::leaves(
                network_steps(config, install_root, uuid, false),
                install_root + "/etc/iwd/main.conf"@,
                content,
            ),
        services::service_list(config).contains("iwd"@),
        !services::service_list(config).contains("NetworkManager"@),
{
    services::one_radio_program_starts(config);
    let a = network_steps(config, install_root, uuid, false);
    let path = install_root + "/etc/iwd/main.conf"@;
    reveal_strlit(r#"[General]
EnableNetworkConfiguration=true

[Network]
NameResolvingService=resolvconf
RoutePriorityOffset=300
EnableIPv6=true

[Scan]
DisablePeriodicScan=false
"#);
    reveal_strlit("EnableNetworkConfiguration=true");
    let line = "EnableNetworkConfiguration=true"@;
    let c = IWD_CONF@;
    let n = 9 + 1 + line.len() as int;
    assert(c[9] == '\n' && c[n] == '\n');
    assert(c =~= c.take(9) + seq!['\n'] + line + seq!['\n'] + c.skip(n + 1));
    text::lemma_line_between(c.take(9), line, c.skip(n + 1));
    assert(effects::touches(a[1], path));
    assert(effects::leaves(a, path, c));
}

/// How the file of a network ends that has this password or none.
pub open spec fn kind_of(password: Option<Text>) -> Text {
    match password {
        Some(_) => ".psk"@,
        None => ".open"@,
    }
}

/// A network that is handed over is told to what manages the networks: the file lies where
/// that looks for it, names the network and holds the password where there is one. None but
/// root can read it.
pub proof fn network_is_handed_over(
    config: DeploymentConfig,
    install_root: Text,
    uuid: Text,
    ssid: Text,
    password: Option<Text>,
)
    requires
        config.network.wifi_ssid matches Some(s) && s@ == ssid,
        plan::seen(config.network.wifi_password) == password,
        !ssid.contains('\n'),
        !(ssid.len() > 0 && ssid.last() == '\r'),
        password matches Some(p) ==> !p.contains('\n') && !(p.len() > 0 && p.last() == '\r'),
    ensures
        config.network.backend != NetworkBackend::Iwd ==> exists|content: Text|
            {
                &&& #[trigger] effects::leaves_with(
                    network_steps(config, install_root, uuid, false),
                    install_root + "/etc/NetworkManager/system-connections/"@ + ssid
                        + ".nmconnection"@,
                    content,
                    0o600,
                )
                &&& text::lines_of(content).contains("ssid="@ + ssid)
                &&& password matches Some(p) ==> text::lines_of(content).contains("psk="@ + p)
                    && text::lines_of(content).contains("key-mgmt=wpa-psk"@)
                &&& text::lines_of(content).contains("autoconnect=true"@)
            },
        config.network.backend == NetworkBackend::Iwd && plain_ssid(ssid) ==> exists|content: Text|
            {
                &&& #[trigger] effects::leaves_with(
                    network_steps(config, install_root, uuid, false),
                    install_root + "/var/lib/iwd/"@ + ssid + kind_of(password),
                    content,
                    0o600,
                )
                &&& password matches Some(p) ==> text::lines_of(content).contains(
                    "Passphrase="@ + p,
                )
                &&& text::lines_of(content).contains("AutoConnect=true"@)
            },
{
    let steps = network_steps(config, install_root, uuid, false);
    let a = backend_steps(config.network.backend, install_root, false);
    let b = preseed_steps(
        config.network.backend,
        install_root,
        ssid,
        password,
        uuid,
        false,
    );
    assert(steps =~= a + b);
    reveal_strlit("/");
    if config.network.backend != NetworkBackend::Iwd {
        let path = install_root + "/etc/NetworkManager/system-connections/"@ + ssid
            + ".nmconnection"@;
        reveal_strlit("/etc/NetworkManager/system-connections/");
        reveal_strlit("/etc/NetworkManager/system-connections");
        assert(path =~= install_root + "/etc/NetworkManager/system-connections"@ + "/"@ + ssid
            + ".nmconnection"@);
        lemma_connection_is_no_setting(install_root, ssid);
        let content = wifi_profile_text(ssid, uuid, security_of(password));
        assert(steps.len() == 4);
        assert(steps[3] == b[1]);
        assert(effects::touches(steps[3], path));
        assert(effects::leaves_with(steps, path, content, 0o600));
        lemma_profile_lines(ssid, uuid, password);
    } else if plain_ssid(ssid) {
        let end = kind_of(password);
        let path = install_root + "/var/lib/iwd/"@ + ssid + end;
        reveal_strlit("/var/lib/iwd/");
        reveal_strlit("/var/lib/iwd");
        reveal_strlit("/etc/iwd/main.conf");
        assert(path =~= install_root + "/var/lib/iwd"@ + "/"@ + ssid + end);
        let below = "/var/lib/iwd/"@ + ssid + end;
        assert(below[1] == 'v');
        effects::lemma_paths_differ(install_root, below, "/etc/iwd/main.conf"@);
        assert(path =~= install_root + below);
        let content = b[2]->Write_content;
        assert(steps.len() == 5);
        assert(steps[4] == b[2]);
        assert(effects::touches(steps[4], path));
        assert(install_root + "/var/lib/iwd"@ != path) by {
            assert((install_root + "/var/lib/iwd"@).len() < path.len());
        }
        assert(effects::leaves_with(steps, path, content, 0o600));
        lemma_iwd_lines(password);
    }
}

proof fn lemma_profile_lines(ssid: Text, uuid: Text, password: Option<Text>)
    requires
        !ssid.contains('\n'),
        !(ssid.len() > 0 && ssid.last() == '\r'),
        password matches Some(p) ==> !p.contains('\n') && !(p.len() > 0 && p.last() == '\r'),
    ensures
        ({
            let l = text::lines_of(wifi_profile_text(ssid, uuid, security_of(password)));
            &&& l.contains("ssid="@ + ssid)
            &&& l.contains("autoconnect=true"@)
            &&& password matches Some(p) ==> l.contains("psk="@ + p) && l.contains(
                "key-mgmt=wpa-psk"@,
            )
        }),
{
    let t = wifi_profile_text(ssid, uuid, security_of(password));
    reveal_strlit(r#"
type=wifi
autoconnect=true

[wifi]
mode=infrastructure
ssid="#);
    reveal_strlit("autoconnect=true");
    reveal_strlit("ssid=");
    reveal_strlit("\n");
    let head = PROFILE_1@ + ssid + "\nuuid="@ + uuid;
    let tail = security_of(password) + PROFILE_3@;
    let mid = PROFILE_2@;
    assert(mid[10] == '\n' && mid[27] == '\n');
    let n = mid.len() - 6;
    assert(mid[n] == '\n');
    let line = "ssid="@ + ssid;
    assert(mid.skip(n + 1) =~= "ssid="@);
    lemma_line(head + mid.take(n), line, tail, t);
    let auto = "autoconnect=true"@;
    assert(mid.subrange(11, 27) =~= auto);
    lemma_line(head + mid.take(10), auto, mid.skip(28) + ssid + "\n"@ + tail, t);
    if let Some(p) = password {
        reveal_strlit("\n[wifi-security]\nkey-mgmt=wpa-psk\npsk=");
        reveal_strlit("key-mgmt=wpa-psk");
        reveal_strlit("psk=");
        let s = "\n[wifi-security]\nkey-mgmt=wpa-psk\npsk="@;
        let before = head + mid + ssid + "\n"@;
        assert(s[16] == '\n' && s[33] == '\n');
        assert(s.subrange(17, 33) =~= "key-mgmt=wpa-psk"@);
        assert(s.skip(34) =~= "psk="@);
        lemma_line(before + s.take(33), "psk="@ + p, PROFILE_3@, t);
        lemma_line(before + s.take(16), "key-mgmt=wpa-psk"@, s.skip(34) + p + "\n"@ + PROFILE_3@, t);
    }
}

/// A line between two line feeds of a text.
proof fn lemma_line(before: Text, line: Text, after: Text, t: Text)
    requires
        t =~= before + seq!['\n'] + line + seq!['\n'] + after,
        line.len() > 0,
        !line.contains('\n'),
        !(line.len() > 0 && line.last() == '\r'),
    ensures
        text::lines_of(t).contains(line),
{
    text::lemma_line_between(before, line, after);
}

proof fn lemma_iwd_lines(password: Option<Text>)
    requires
        password matches Some(p) ==> !p.contains('\n') && !(p.len() > 0 && p.last() == '\r'),
    ensures
        ({
            let t = match password {
                Some(psk) => "[Security]\nPassphrase="@ + psk
                    + "\n\n[Settings]\nAutoConnect=true\n"@,
                None => "[Settings]\nAutoConnect=true\n"@,
            };
            &&& text::lines_of(t).contains("AutoConnect=true"@)
            &&& password matches Some(p) ==> text::lines_of(t).contains("Passphrase="@ + p)
        }),
{
    reveal_strlit("[Settings]\nAutoConnect=true\n");
    reveal_strlit("\n\n[Settings]\nAutoConnect=true\n");
    reveal_strlit("[Security]\nPassphrase=");
    reveal_strlit("Passphrase=");
    reveal_strlit("AutoConnect=true");
    let none = Seq::<char>::empty();
    match password {
        Some(p) => {
            let a = "[Security]\nPassphrase="@;
            let b = "\n\n[Settings]\nAutoConnect=true\n"@;
            let t = a + p + b;
            assert(a.skip(11) =~= "Passphrase="@);
            assert(t =~= a.take(10) + seq!['\n'] + ("Passphrase="@ + p) + seq!['\n'] + b.skip(1));
            lemma_line(a.take(10), "Passphrase="@ + p, b.skip(1), t);
            assert(b.subrange(13, 29) =~= "AutoConnect=true"@);
            assert(t =~= (a + p + b.take(12)) + seq!['\n'] + "AutoConnect=true"@ + seq!['\n'] + none);
            lemma_line(a + p + b.take(12), "AutoConnect=true"@, none, t);
        },
        None => {
            let t = "[Settings]\nAutoConnect=true\n"@;
            assert(t =~= t.take(10) + seq!['\n'] + "AutoConnect=true"@ + seq!['\n'] + none);
            lemma_line(t.take(10), "AutoConnect=true"@, none, t);
        },
    }
}

} // verus!
