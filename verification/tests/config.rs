use pca9956b_cli::config::{base_url, dump_args, Config};

fn config(https: bool, host: &str, port: &str, bus: i32, addr: i32) -> Config {
    Config { https, host: host.to_string(), port: port.to_string(), bus, addr }
}

#[test]
fn dump_args_lists_every_setting() {
    let lines = dump_args(&config(false, "localhost", "80", 0, 32));
    assert_eq!(
        lines,
        vec![
            "Arg https: false\n".to_string(),
            "Arg host:  localhost\n".to_string(),
            "Arg port:  80\n".to_string(),
            "Arg bus:   0\n".to_string(),
            "Arg addr:  32\n".to_string(),
        ]
    );
}

#[test]
fn dump_args_writes_values_as_they_are() {
    let lines = dump_args(&config(true, "", "eighty", -1, i32::MIN));
    assert_eq!(
        lines,
        vec![
            "Arg https: true\n".to_string(),
            "Arg host:  \n".to_string(),
            "Arg port:  eighty\n".to_string(),
            "Arg bus:   -1\n".to_string(),
            "Arg addr:  -2147483648\n".to_string(),
        ]
    );
}

#[test]
fn base_url_joins_scheme_host_and_port() {
    assert_eq!(base_url(&config(false, "localhost", "80", 0, 32)), "http://localhost:80");
    assert_eq!(base_url(&config(true, "leds.example", "8443", 1, 33)), "https://leds.example:8443");
    assert_eq!(base_url(&config(false, "", "", 0, 0)), "http://:");
}
