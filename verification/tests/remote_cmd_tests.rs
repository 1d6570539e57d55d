use ciconia::remote_cmd::{
    ContainerDetails, ContainerInfo, DockerContainer, GetContainerAddrCmd, GetContainerInfoCmd,
    RemoteCommand,
};

const INSPECT: &str =
    "docker inspect -f '{{range .NetworkSettings.Networks}}{{.IPAddress}}{{end}}' ";
const LISTING: &str = "docker ps --format '{{.ID}}|{{.Image}}|{{.Names}}|{{.Ports}}|{{.Status}}'";

fn addr(name: &str) -> GetContainerAddrCmd {
    GetContainerAddrCmd { container_name: name.to_string() }
}

// What a POSIX shell reads from one word made of plain characters,
// single-quoted spans and backslash escapes.
fn shell_word(word: &str) -> Option<String> {
    let chars: Vec<char> = word.chars().collect();
    let mut out = String::new();
    let mut in_quotes = false;
    let mut i = 0;
    while i < chars.len() {
        let c = chars[i];
        if c == '\0' {
            return None;
        }
        if in_quotes {
            if c == '\'' {
                in_quotes = false;
            } else {
                out.push(c);
            }
            i += 1;
        } else if c == '\'' {
            in_quotes = true;
            i += 1;
        } else if c == '\\' {
            if i + 1 >= chars.len() {
                return None;
            }
            if chars[i + 1] != '\n' {
                out.push(chars[i + 1]);
            }
            i += 2;
        } else if c.is_ascii_alphanumeric() || "-_=/,.+".contains(c) {
            out.push(c);
            i += 1;
        } else {
            return None;
        }
    }
    if in_quotes {
        None
    } else {
        Some(out)
    }
}

#[test]
fn container_addr_command_leaves_plain_names_unquoted() {
    assert_eq!(addr("web").to_shell_string(), format!("{}web", INSPECT));
    assert_eq!(addr("my-app_1.web").to_shell_string(), format!("{}my-app_1.web", INSPECT));
}

#[test]
fn container_addr_command_quotes_what_the_shell_would_split() {
    assert_eq!(addr("my web").to_shell_string(), format!("{}'my web'", INSPECT));
    assert_eq!(addr("web; rm -rf /").to_shell_string(), format!("{}'web; rm -rf /'", INSPECT));
    assert_eq!(addr("$(id)").to_shell_string(), format!("{}'$(id)'", INSPECT));
    assert_eq!(addr("").to_shell_string(), format!("{}''", INSPECT));
}

#[test]
fn container_addr_command_escapes_quotes_and_bangs() {
    assert_eq!(addr("it's").to_shell_string(), format!("{}'it'\\''s'", INSPECT));
    assert_eq!(addr("wow!").to_shell_string(), format!("{}'wow'\\!''", INSPECT));
}

#[test]
fn quoting_round_trips_through_the_shell_grammar() {
    for name in [
        "web",
        "",
        "my web",
        "it's",
        "wow!",
        "'",
        "''",
        "!'!",
        "a\\b",
        "tab\there",
        "new\nline",
        "$HOME `id` \"x\"",
        "ünïcödé ☃",
        "a=b,c/d.e+f-g_h",
        "\\",
        "\\\n",
    ] {
        let line = addr(name).to_shell_string();
        let word = &line[INSPECT.len()..];
        assert_eq!(shell_word(word), Some(name.to_string()), "word {:?}", word);
    }
}

#[test]
fn build_shell_string_elevates_on_request() {
    let cmd = addr("web");
    assert_eq!(cmd.build_shell_string(true), format!("sudo -n {}web", INSPECT));
    assert_eq!(cmd.build_shell_string(false), format!("{}web", INSPECT));
}

#[test]
fn container_addr_parse_trims_the_address() {
    let cmd = addr("web");
    assert_eq!(cmd.parse_output("172.17.0.3\n"), Some("172.17.0.3".to_string()));
    assert_eq!(cmd.parse_output("  10.0.0.7  "), Some("10.0.0.7".to_string()));
    assert_eq!(cmd.parse_output("172.17.0.3172.18.0.2\r\n"), Some("172.17.0.3172.18.0.2".to_string()));
}

#[test]
fn container_addr_parse_of_blank_output_is_none() {
    let cmd = addr("web");
    assert_eq!(cmd.parse_output(""), None);
    assert_eq!(cmd.parse_output("\n"), None);
    assert_eq!(cmd.parse_output(" \t\r\n "), None);
}

#[test]
fn container_listing_command_without_keyword() {
    let cmd = GetContainerInfoCmd { keyword: None };
    assert_eq!(cmd.to_shell_string(), LISTING);
    assert_eq!(cmd.build_shell_string(true), format!("sudo -n {}", LISTING));
}

#[test]
fn container_listing_command_with_keyword() {
    let cmd = GetContainerInfoCmd { keyword: Some("nginx".to_string()) };
    assert_eq!(cmd.to_shell_string(), format!("{} | grep nginx", LISTING));
    let cmd = GetContainerInfoCmd { keyword: Some("my app".to_string()) };
    assert_eq!(cmd.to_shell_string(), format!("{} | grep 'my app'", LISTING));
}

#[test]
fn container_listing_parse_reads_each_row() {
    let cmd = GetContainerInfoCmd { keyword: None };
    let out = "abc123|nginx:latest|web|0.0.0.0:80->80/tcp, :::80->80/tcp|Up 2 hours\n\
               def456|redis|cache||Up 5 minutes\n";
    let got = cmd.parse_output(out).unwrap();
    assert_eq!(
        got,
        vec![
            ContainerInfo {
                id: "abc123".to_string(),
                image: "nginx:latest".to_string(),
                name: "web".to_string(),
                ports: vec!["0.0.0.0:80->80/tcp".to_string(), ":::80->80/tcp".to_string()],
                status: "Up 2 hours".to_string(),
            },
            ContainerInfo {
                id: "def456".to_string(),
                image: "redis".to_string(),
                name: "cache".to_string(),
                ports: vec![],
                status: "Up 5 minutes".to_string(),
            },
        ]
    );
}

#[test]
fn container_listing_parse_skips_blank_and_short_lines() {
    let cmd = GetContainerInfoCmd { keyword: None };
    let out = "\n   \nonly|four|columns|here\n  a|b|c|d|e  \r\n\nf|g|h|i|j|k|l";
    let got = cmd.parse_output(out).unwrap();
    assert_eq!(got.len(), 2);
    assert_eq!(got[0].id, "a");
    assert_eq!(got[0].ports, vec!["d".to_string()]);
    assert_eq!(got[0].status, "e");
    assert_eq!(got[1].id, "f");
    assert_eq!(got[1].image, "g");
    assert_eq!(got[1].name, "h");
    assert_eq!(got[1].ports, vec!["i".to_string()]);
    assert_eq!(got[1].status, "j");
}

#[test]
fn container_listing_parse_of_empty_output_is_an_empty_list() {
    let cmd = GetContainerInfoCmd { keyword: None };
    assert_eq!(cmd.parse_output(""), Some(vec![]));
    assert_eq!(cmd.parse_output("\n\n"), Some(vec![]));
}

#[test]
fn container_listing_parse_keeps_inner_spaces_of_columns() {
    let cmd = GetContainerInfoCmd { keyword: None };
    let got = cmd.parse_output("id | image | name | 80/tcp , , 443/tcp ,| status").unwrap();
    assert_eq!(got.len(), 1);
    assert_eq!(got[0].id, "id ");
    assert_eq!(got[0].image, " image ");
    assert_eq!(got[0].name, " name ");
    assert_eq!(got[0].ports, vec!["80/tcp".to_string(), "443/tcp".to_string()]);
    assert_eq!(got[0].status, " status");
}

#[test]
fn docker_container_copies_the_row() {
    let info = ContainerInfo {
        id: "abc".to_string(),
        image: "nginx".to_string(),
        name: "web".to_string(),
        ports: vec!["80/tcp".to_string(), "443/tcp".to_string()],
        status: "Up".to_string(),
    };
    assert_eq!(
        DockerContainer::from(&info),
        DockerContainer {
            id: "abc".to_string(),
            image: "nginx".to_string(),
            name: "web".to_string(),
            ports: vec!["80/tcp".to_string(), "443/tcp".to_string()],
            status: "Up".to_string(),
        }
    );
}

#[test]
fn container_details_hold_the_trimmed_output() {
    assert_eq!(ContainerDetails::from_output("172.17.0.2\n").ip, "172.17.0.2");
    assert_eq!(ContainerDetails::from_output("\n").ip, "");
}
