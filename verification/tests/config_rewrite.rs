use serde_yaml::{Mapping, Value};
use tomoon::control::Clash;
use tomoon::helper::check_yaml;
use tomoon::settings::EnhancedMode;
use tomoon::yaml::{change_config_document, dns_config, is_profile, profile_config, tun_config, Yaml};

fn to_model(v: &Value) -> Yaml {
    match v {
        Value::Null => Yaml::Null,
        Value::Bool(b) => Yaml::Bool(*b),
        Value::Number(n) => Yaml::Number(n.to_string()),
        Value::String(s) => Yaml::Str(s.clone()),
        Value::Sequence(items) => Yaml::Sequence(items.iter().map(to_model).collect()),
        Value::Mapping(m) => Yaml::Mapping(m.iter().map(|(k, v)| (to_model(k), to_model(v))).collect()),
        Value::Tagged(t) => Yaml::Tagged(t.tag.to_string(), Box::new(to_model(&t.value))),
    }
}

fn same(a: &Yaml, b: &Yaml) -> bool {
    format!("{:?}", a) == format!("{:?}", b)
}

const TUN: &str = "
        enable: true
        stack: system
        auto-route: true
        auto-detect-interface: true
        dns-hijack:
            - any:53
        ";

const DNS_FAKEIP: &str = "
        enable: true
        listen: 127.0.0.1:8853
        default-nameserver:
            - 223.5.5.5
            - 8.8.4.4
        ipv6: false
        enhanced-mode: fake-ip
        nameserver:
            - 119.29.29.29
            - 223.5.5.5
            - tls://223.5.5.5:853
            - tls://223.6.6.6:853
        fallback:
            - https://1.0.0.1/dns-query
            - https://public.dns.iij.jp/dns-query
            - tls://8.8.4.4:853
        fallback-filter:
            geoip: false
            ipcidr:
            - 240.0.0.0/4
            - 0.0.0.0/32
            - 127.0.0.1/32
        fake-ip-filter:
            - \"*.lan\"
            - \"*.localdomain\"
            - \"*.localhost\"
            - \"*.local\"
            - \"*.home.arpa\"
            - stun.*.*
            - stun.*.*.*
            - +.stun.*.*
            - +.stun.*.*.*
            - +.stun.*.*.*.*
        ";

const DNS_REDIR_HOST: &str = "
        enable: true
        ipv6: false
        listen: 127.0.0.1:8853
        default-nameserver:
            - 223.5.5.5
            - 8.8.4.4
        enhanced-mode: redir-host
        nameserver:
            - 119.29.29.29
            - 223.5.5.5
            - tls://223.5.5.5:853
            - tls://223.6.6.6:853
        fallback:
            - https://1.0.0.1/dns-query
            - https://public.dns.iij.jp/dns-query
            - tls://8.8.4.4:853
        fallback-filter:
            geoip: false
            ipcidr:
            - 240.0.0.0/4
            - 0.0.0.0/32
            - 127.0.0.1/32
        ";

const PROFILE: &str = "
        store-selected: true
        store-fake-ip: false
        ";

fn parse(text: &str) -> Value {
    serde_yaml::from_str(text).unwrap()
}

/// The rewrite performed with serde_yaml's own mapping operations, step by step.
fn rewrite_with_serde(doc: &mut Value, skip_proxy: bool, override_dns: bool, mode: EnhancedMode, webui: &str) -> Mapping {
    let yaml = doc.as_mapping_mut().unwrap();
    match yaml.get_mut("external-controller") {
        Some(x) => *x = Value::String(String::from("127.0.0.1:9090")),
        None => {
            yaml.insert(Value::String(String::from("external-controller")), Value::String(String::from("127.0.0.1:9090")));
        }
    }
    if let Some(x) = yaml.get_mut("rules") {
        let rules = x.as_sequence_mut().unwrap();
        rules.insert(0, Value::String(String::from("DOMAIN,test.steampowered.com,DIRECT")));
        if skip_proxy {
            rules.insert(0, Value::String(String::from("DOMAIN-SUFFIX,cm.steampowered.com,DIRECT")));
            rules.insert(0, Value::String(String::from("DOMAIN-SUFFIX,steamserver.net,DIRECT")));
        }
    }
    match yaml.get_mut("external-ui") {
        Some(x) => *x = Value::String(String::from(webui)),
        None => {
            yaml.insert(Value::String(String::from("external-ui")), Value::String(String::from(webui)));
        }
    }
    let insert = |yaml: &mut Mapping, config: &str, key: &str| {
        yaml.insert(Value::String(String::from(key)), parse(config));
    };
    if yaml.get("tun").is_some() {
        yaml.remove("tun").unwrap();
    }
    insert(yaml, TUN, "tun");
    match yaml.get("dns") {
        Some(_) => {
            if override_dns {
                yaml.remove("dns").unwrap();
                match mode {
                    EnhancedMode::FakeIp => insert(yaml, DNS_FAKEIP, "dns"),
                    EnhancedMode::RedirHost => insert(yaml, DNS_REDIR_HOST, "dns"),
                }
            }
        }
        None => insert(yaml, DNS_REDIR_HOST, "dns"),
    }
    if yaml.get("profile").is_some() {
        yaml.remove("profile").unwrap();
    }
    insert(yaml, PROFILE, "profile");
    yaml.clone()
}

#[test]
fn fragments_match_their_yaml_text() {
    assert!(same(&tun_config(), &to_model(&parse(TUN))));
    assert!(same(&dns_config(EnhancedMode::FakeIp), &to_model(&parse(DNS_FAKEIP))));
    assert!(same(&dns_config(EnhancedMode::RedirHost), &to_model(&parse(DNS_REDIR_HOST))));
    assert!(same(&profile_config(), &to_model(&parse(PROFILE))));
}

const PROFILES: [&str; 5] = [
    "port: 7890\ntun:\n  enable: false\ndns:\n  enable: false\nrules:\n  - MATCH,DIRECT\n",
    "rules: []\nexternal-controller: 0.0.0.0:1\nprofile: {a: 1}\nmode: rule\n",
    "mixed-port: 7890\nexternal-ui: ui\nproxies: []\n",
    "!wrapped\nrules: !list\n  - MATCH,Proxy\nlog-level: info\ndns: {enable: true}\n",
    "{}",
];

#[test]
fn rewrite_agrees_with_serde_yaml() {
    for text in PROFILES {
        for skip_proxy in [false, true] {
            for override_dns in [false, true] {
                for mode in [EnhancedMode::FakeIp, EnhancedMode::RedirHost] {
                    let mut doc = parse(text);
                    let expected = rewrite_with_serde(&mut doc, skip_proxy, override_dns, mode, "/p/bin/core/web");
                    let got = change_config_document(to_model(&parse(text)), skip_proxy, override_dns, mode, "/p/bin/core/web");
                    assert!(same(&got, &to_model(&Value::Mapping(expected))), "profile {:?}", text);
                }
            }
        }
    }
}

#[test]
fn rewrite_keeps_other_keys_and_orders_entries() {
    let doc = to_model(&parse(PROFILES[0]));
    let out = change_config_document(doc, true, true, EnhancedMode::FakeIp, "/p/bin/core/web");
    let keys: Vec<String> = match &out {
        Yaml::Mapping(entries) => entries
            .iter()
            .map(|(k, _)| match k {
                Yaml::Str(s) => s.clone(),
                _ => String::new(),
            })
            .collect(),
        _ => panic!("the result is a mapping"),
    };
    assert_eq!(keys, vec!["port", "external-ui", "tun", "rules", "external-controller", "dns", "profile"]);
    match &out {
        Yaml::Mapping(entries) => {
            assert!(same(&entries[0].1, &Yaml::Number("7890".to_string())));
            match &entries[3].1 {
                Yaml::Sequence(rules) => {
                    assert_eq!(rules.len(), 4);
                    assert!(same(&rules[0], &Yaml::Str("DOMAIN-SUFFIX,steamserver.net,DIRECT".to_string())));
                    assert!(same(&rules[3], &Yaml::Str("MATCH,DIRECT".to_string())));
                }
                _ => panic!("rules stay a sequence"),
            }
        }
        _ => panic!("the result is a mapping"),
    }
}

#[test]
fn clash_change_config_uses_plugin_web_ui() {
    let clash = Clash::new_in("/plugin");
    let out = clash.change_config(to_model(&parse("rules: []\n")), false, false, EnhancedMode::FakeIp, "/plugin");
    match out {
        Yaml::Mapping(entries) => {
            let ui = entries.iter().find(|(k, _)| same(k, &Yaml::Str("external-ui".to_string()))).unwrap();
            assert!(same(&ui.1, &Yaml::Str("/plugin/bin/core/web".to_string())));
        }
        _ => panic!("the result is a mapping"),
    }
}

#[test]
fn profiles_need_rules() {
    assert!(check_yaml(&Some(to_model(&parse("rules: []")))));
    assert!(check_yaml(&Some(to_model(&parse("!t\nrules: [a]")))));
    assert!(!check_yaml(&Some(to_model(&parse("proxies: []")))));
    assert!(!check_yaml(&Some(to_model(&parse("- rules")))));
    assert!(!check_yaml(&None));
    assert!(is_profile(&to_model(&parse("a: 1\nrules: 2"))));
}

#[test]
fn rewrite_keeps_keys_of_every_kind() {
    let text = "
1: one
true: yes-value
? [a, b]
: pair
rules:
  - MATCH,DIRECT
proxies: []
";
    let doc: Value = serde_yaml::from_str(text).unwrap();
    let out = change_config_document(to_model(&doc), false, false, EnhancedMode::FakeIp, "/w");
    let entries = match out {
        Yaml::Mapping(e) => e,
        _ => panic!("the run configuration is a mapping"),
    };
    let find = |k: &Yaml| entries.iter().find(|(key, _)| same(key, k)).map(|(_, v)| format!("{:?}", v));
    assert_eq!(find(&Yaml::Number("1".to_string())), Some(format!("{:?}", Yaml::Str("one".to_string()))));
    assert_eq!(find(&Yaml::Bool(true)), Some(format!("{:?}", Yaml::Str("yes-value".to_string()))));
    let pair = Yaml::Sequence(vec![Yaml::Str("a".to_string()), Yaml::Str("b".to_string())]);
    assert_eq!(find(&pair), Some(format!("{:?}", Yaml::Str("pair".to_string()))));
    assert_eq!(find(&Yaml::Str("proxies".to_string())), Some(format!("{:?}", Yaml::Sequence(vec![]))));
    for i in 0..entries.len() {
        for j in (i + 1)..entries.len() {
            assert!(!same(&entries[i].0, &entries[j].0), "a key appears twice");
        }
    }
}
