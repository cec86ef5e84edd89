use ali_bastion::config::Config;
use ali_bastion::config::HostConfig;

#[test]
fn test_config_new() {
    let config = Config::new();
    assert!(config.hosts.is_empty());
}

#[test]
fn test_add_host() {
    let mut config = Config::new();
    let host = HostConfig {
        name: "test_host".to_string(),
        hostname: "192.168.1.1".to_string(),
        port: 60022,
        username: "testuser".to_string(),
        password: None,
    };

    config.add_host(host.clone());
    assert_eq!(config.hosts.len(), 1);
    assert_eq!(config.get_host("test_host"), Some(&host));
}

#[test]
fn test_remove_host() {
    let mut config = Config::new();
    let host = HostConfig {
        name: "test_host".to_string(),
        hostname: "192.168.1.1".to_string(),
        port: 60022,
        username: "testuser".to_string(),
        password: None,
    };

    config.add_host(host);
    assert_eq!(config.hosts.len(), 1);

    let removed = config.remove_host("test_host");
    assert!(removed);
    assert_eq!(config.hosts.len(), 0);

    // Try to remove non-existent host
    let removed = config.remove_host("non_existent");
    assert!(!removed);
}

#[test]
fn test_get_host() {
    let mut config = Config::new();
    let host = HostConfig {
        name: "test_host".to_string(),
        hostname: "192.168.1.1".to_string(),
        port: 60022,
        username: "testuser".to_string(),
        password: None,
    };

    config.add_host(host.clone());
    assert_eq!(config.get_host("test_host"), Some(&host));
    assert_eq!(config.get_host("non_existent"), None);
}

#[test]
fn test_list_hosts() {
    let mut config = Config::new();
    let host1 = HostConfig {
        name: "host1".to_string(),
        hostname: "192.168.1.1".to_string(),
        port: 60022,
        username: "user1".to_string(),
        password: None,
    };
    let host2 = HostConfig {
        name: "host2".to_string(),
        hostname: "192.168.1.2".to_string(),
        port: 60022,
        username: "user2".to_string(),
        password: None,
    };

    config.add_host(host1);
    config.add_host(host2);

    let hosts = config.list_hosts();
    assert_eq!(hosts.len(), 2);
}

#[test]
fn test_duplicate_host_names() {
    let mut config = Config::new();
    let host1 = HostConfig {
        name: "test_host".to_string(),
        hostname: "192.168.1.1".to_string(),
        port: 60022,
        username: "user1".to_string(),
        password: None,
    };
    let host2 = HostConfig {
        name: "test_host".to_string(), // Same name as host1
        hostname: "192.168.1.2".to_string(),
        port: 60022,
        username: "user2".to_string(),
        password: None,
    };

    config.add_host(host1.clone());
    assert_eq!(config.hosts.len(), 1);
    assert_eq!(config.get_host("test_host"), Some(&host1));

    // Adding host with same name should overwrite the existing one
    config.add_host(host2.clone());
    assert_eq!(config.hosts.len(), 1);
    assert_eq!(config.get_host("test_host"), Some(&host2));
}

#[test]
fn test_add_and_retrieve_host() {
    // Test adding a host
    let mut config = Config::new();

    let host = HostConfig {
        name: "test_host".to_string(),
        hostname: "192.168.1.1".to_string(),
        port: 60022,
        username: "testuser".to_string(),
        password: None,
    };

    config.add_host(host.clone());
    assert_eq!(config.hosts.len(), 1);

    // Retrieve the host
    let retrieved_host = config.get_host("test_host");
    assert_eq!(retrieved_host, Some(&host));
}

#[test]
fn test_list_hosts_keeps_storage_order() {
    let mut config = Config::new();
    for name in ["one", "two", "three"] {
        config.add_host(HostConfig {
            name: name.to_string(),
            hostname: "10.0.0.1".to_string(),
            port: 22,
            username: "u".to_string(),
            password: None,
        });
    }
    let hosts = config.list_hosts();
    assert_eq!(hosts[0].name, "one");
    assert_eq!(hosts[1].name, "two");
    assert_eq!(hosts[2].name, "three");
}

#[test]
fn test_overwrite_keeps_position_and_length() {
    let mut config = Config::new();
    for name in ["a", "b", "c"] {
        config.add_host(HostConfig {
            name: name.to_string(),
            hostname: "h".to_string(),
            port: 1,
            username: "u".to_string(),
            password: None,
        });
    }
    config.add_host(HostConfig {
        name: "b".to_string(),
        hostname: "replacement".to_string(),
        port: 2,
        username: "v".to_string(),
        password: None,
    });
    assert_eq!(config.hosts.len(), 3);
    let hosts = config.list_hosts();
    assert_eq!(hosts[1].name, "b");
    assert_eq!(hosts[1].hostname, "replacement");
    assert_eq!(hosts[1].port, 2);
}
