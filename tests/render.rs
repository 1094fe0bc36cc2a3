use flatpack_gen::config::{
    ArtifactKind, CommandEntry, Config, Diagnostic, GenerationError, GitEntry, Packages, PortEntry,
    ScriptEntry, Section, Transfer,
};
use flatpack_gen::render::{render, render_now};
use flatpack_gen::strmap::StrMap;

const TS: &str = "2024-01-02 03:04:05";

fn map(pairs: &[(&str, &str)]) -> StrMap {
    let mut m = StrMap::new();
    for (k, v) in pairs {
        m.insert(k.to_string(), v.to_string());
    }
    m
}

fn entry(command: &str, args: &str) -> CommandEntry {
    CommandEntry { command: Some(command.to_string()), args: Some(args.to_string()) }
}

fn config() -> Config {
    Config {
        base_image: "ubuntu:22.04".to_string(),
        environment: StrMap::new(),
        directories: None,
        packages: None,
        ports: Vec::new(),
        dataset: None,
        file: None,
        git: Vec::new(),
        run: None,
        script: None,
        cmd: Vec::new(),
        version: "0.1".to_string(),
    }
}

fn header(ts: &str) -> String {
    format!("# This file was automatically @generated by flatpack.ai on {}.\n# It is not intended for manual editing.\n\n", ts)
}

#[test]
fn minimal_end_to_end() {
    let mut c = config();
    c.environment = map(&[("A", "1")]);
    c.ports = vec![PortEntry { internal: Some(80), external: None }];
    c.packages = Some(Packages { unix: Some(map(&[("curl", "*")])), python: None });
    let a = render(&c, ArtifactKind::ContainerMinimal, TS).unwrap();
    let expected = format!(
        "{}FROM ubuntu:22.04\nENV A=1\nRUN mkdir -p\nRUN apt-get update && apt-get install -y curl\nEXPOSE 80\n\n# Build complete! 🎉\n",
        header(TS)
    );
    assert_eq!(a.text, expected);
    assert!(a.diagnostics.is_empty());
    assert!(!a.text.contains("CMD"));
}

#[test]
fn minimal_joins_directories() {
    let mut c = config();
    c.directories = Some(map(&[("b", "/data"), ("a", "/models")]));
    let a = render(&c, ArtifactKind::ContainerMinimal, TS).unwrap();
    assert!(a.text.contains("\nRUN mkdir -p /models /data\n"));
}

#[test]
fn unix_packages_pinned() {
    let mut c = config();
    c.packages = Some(Packages { unix: Some(map(&[("git", "1:2.30"), ("curl", "*")])), python: None });
    c.cmd = vec![entry("bash", "-c true")];
    let a = render(&c, ArtifactKind::ContainerFull, TS).unwrap();
    assert!(a.text.contains(
        "RUN apt-get update && apt-get upgrade -y && apt-get install -y curl git=1:2.30 && apt-get autoremove -y && apt-get clean && rm -rf /var/lib/apt/lists/*\n"
    ));
    let m = render(&c, ArtifactKind::ContainerMinimal, TS).unwrap();
    assert!(m.text.contains("\nRUN apt-get update && apt-get install -y curl git=1:2.30\n"));
}

#[test]
fn python_packages_pinned() {
    let mut c = config();
    c.environment = map(&[("model_name", "m")]);
    c.packages = Some(Packages { unix: None, python: Some(map(&[("torch", "2.0"), ("numpy", "")])) });
    c.cmd = vec![entry("python", "x.py")];
    let full = render(&c, ArtifactKind::ContainerFull, TS).unwrap();
    assert!(full.text.contains(" && apt-get autoremove -y && apt-get clean && rm -rf /var/lib/apt/lists/* && pip install numpy torch==2.0\n"));
    let s = render(&c, ArtifactKind::ProvisioningScript, TS).unwrap();
    assert!(s.text.contains("\npython -m pip install numpy torch==2.0\n"));
}

#[test]
fn full_without_packages() {
    let mut c = config();
    c.cmd = vec![entry("python", "x.py")];
    let a = render(&c, ArtifactKind::ContainerFull, TS).unwrap();
    assert!(a.text.contains("RUN apt-get update && apt-get upgrade -y\n# Found no packages, proceeding without them.\n"));
}

#[test]
fn full_layout() {
    let mut c = config();
    c.environment = map(&[("B", "2"), ("A", "1")]);
    c.directories = Some(map(&[("d", "  /a   /b ")]));
    c.ports = vec![PortEntry { internal: Some(8080), external: None }];
    c.git = vec![GitEntry {
        from_source: Some("https://x/r.git".to_string()),
        to_destination: Some("/src".to_string()),
        branch: Some("main".to_string()),
    }];
    c.dataset = Some(vec![Transfer { from_source: Some("http://d".to_string()), to_destination: Some("/d.bin".to_string()) }]);
    c.run = Some(vec![entry("echo", "hi")]);
    c.cmd = vec![entry("python", "app.py  --port 80")];
    let a = render(&c, ArtifactKind::ContainerFull, TS).unwrap();
    let expected = format!(
        "{}FROM ubuntu:22.04\n\n# Create directories\nRUN mkdir -p /a /b\nENV A=1\nENV B=2\n\n# Install packages\nRUN apt-get update && apt-get upgrade -y\n# Found no packages, proceeding without them.\n\n# Expose ports\nEXPOSE 8080\n\n# Clone git repositories\nRUN git clone -b main https://x/r.git /src\n\n# Download datasets and files\nRUN wget http://d -O /d.bin\n# Found no files, proceeding without them.\n\n# RUN commands\nRUN echo hi\n\n# CMD command\nCMD [\"python\", \"app.py\", \"--port\", \"80\"]\n\n# Build complete! 🎉\n",
        header(TS)
    );
    assert_eq!(a.text, expected);
    assert!(a.diagnostics.is_empty());
}

#[test]
fn env_in_key_order() {
    let mut c = config();
    c.environment = map(&[("ZETA", "z"), ("ALPHA", "a"), ("MID", "m")]);
    let a = render(&c, ArtifactKind::ContainerMinimal, TS).unwrap();
    assert!(a.text.contains("ENV ALPHA=a\nENV MID=m\nENV ZETA=z\n"));
    let mut d = config();
    d.environment = map(&[("MID", "m"), ("ZETA", "z"), ("ALPHA", "a")]);
    let b = render(&d, ArtifactKind::ContainerMinimal, TS).unwrap();
    assert_eq!(a.text, b.text);
}

#[test]
fn external_port_only() {
    let mut c = config();
    c.ports = vec![PortEntry { internal: None, external: Some(8080) }];
    let a = render(&c, ArtifactKind::ContainerMinimal, TS).unwrap();
    assert!(!a.text.contains("EXPOSE"));
    assert_eq!(a.diagnostics, vec![Diagnostic::ExternalPort(8080)]);
}

#[test]
fn internal_port_only() {
    let mut c = config();
    c.ports = vec![PortEntry { internal: Some(65535), external: None }];
    let a = render(&c, ArtifactKind::ContainerMinimal, TS).unwrap();
    assert_eq!(a.text.matches("EXPOSE").count(), 1);
    assert!(a.text.contains("EXPOSE 65535\n"));
    assert!(a.diagnostics.is_empty());
}

#[test]
fn port_zero_and_both() {
    let mut c = config();
    c.ports = vec![PortEntry { internal: Some(0), external: Some(9) }];
    let a = render(&c, ArtifactKind::ContainerMinimal, TS).unwrap();
    assert!(a.text.contains("EXPOSE 0\n"));
    assert_eq!(a.diagnostics, vec![Diagnostic::ExternalPort(9)]);
}

#[test]
fn no_entry_point() {
    let c = config();
    assert_eq!(render(&c, ArtifactKind::ContainerFull, TS).err(), Some(GenerationError::Cardinality));
}

#[test]
fn two_entry_points() {
    let mut c = config();
    c.cmd = vec![entry("a", "b"), entry("c", "d")];
    assert_eq!(render(&c, ArtifactKind::ContainerFull, TS).err(), Some(GenerationError::Cardinality));
}

#[test]
fn malformed_entry_point() {
    let mut c = config();
    c.cmd = vec![CommandEntry { command: Some("python".to_string()), args: None }];
    assert_eq!(render(&c, ArtifactKind::ContainerFull, TS).err(), Some(GenerationError::MalformedEntryPoint));
}

#[test]
fn dataset_without_destination() {
    let mut c = config();
    c.dataset = Some(vec![
        Transfer { from_source: Some("http://a".to_string()), to_destination: None },
        Transfer { from_source: Some("http://b".to_string()), to_destination: Some("/b".to_string()) },
    ]);
    c.run = Some(vec![entry("echo", "ok")]);
    c.cmd = vec![entry("python", "x.py")];
    let a = render(&c, ArtifactKind::ContainerFull, TS).unwrap();
    assert!(!a.text.contains("http://a"));
    assert!(a.text.contains("RUN wget http://b -O /b\n"));
    assert!(a.text.contains("RUN echo ok\n"));
    assert!(a.text.contains("CMD [\"python\", \"x.py\"]\n"));
    assert_eq!(a.diagnostics, vec![Diagnostic::MalformedEntry(Section::Dataset)]);
}

#[test]
fn malformed_entries_noted_in_order() {
    let mut c = config();
    c.git = vec![GitEntry { from_source: Some("g".to_string()), to_destination: None, branch: None }];
    c.file = Some(vec![Transfer { from_source: None, to_destination: Some("/f".to_string()) }]);
    c.run = Some(vec![CommandEntry { command: Some("ls".to_string()), args: None }]);
    c.ports = vec![PortEntry { internal: None, external: Some(1) }];
    let a = render(&c, ArtifactKind::ContainerMinimal, TS).unwrap();
    assert_eq!(
        a.diagnostics,
        vec![
            Diagnostic::ExternalPort(1),
            Diagnostic::MalformedEntry(Section::Git),
            Diagnostic::MalformedEntry(Section::File),
            Diagnostic::MalformedEntry(Section::Run),
        ]
    );
}

#[test]
fn timestamp_is_the_only_difference() {
    let mut c = config();
    c.environment = map(&[("A", "1")]);
    c.cmd = vec![entry("python", "x.py")];
    for kind in [ArtifactKind::ContainerMinimal, ArtifactKind::ContainerFull] {
        let a = render(&c, kind, "2024-01-02 03:04:05").unwrap();
        let b = render(&c, kind, "2024-01-02 03:04:06").unwrap();
        assert_ne!(a.text, b.text);
        assert_eq!(a.text.replace("2024-01-02 03:04:05", "T"), b.text.replace("2024-01-02 03:04:06", "T"));
    }
}

#[test]
fn rejected_build_file_is_an_error() {
    let mut c = config();
    c.base_image = "ubuntu\n!!".to_string();
    match render(&c, ArtifactKind::ContainerMinimal, TS) {
        Err(GenerationError::Validation(msg)) => assert!(!msg.is_empty()),
        other => panic!("unexpected: {:?}", other.err()),
    }
    c.cmd = vec![entry("python", "x.py")];
    assert!(matches!(render(&c, ArtifactKind::ContainerFull, TS), Err(GenerationError::Validation(_))));
}

#[test]
fn script_needs_model_name() {
    let c = config();
    assert_eq!(render(&c, ArtifactKind::ProvisioningScript, TS).err(), Some(GenerationError::MissingModelName));
}

#[test]
fn script_rewrites_paths() {
    let mut c = config();
    c.environment = map(&[("model_name", "proj"), ("DATA", "/home/content/data/x:/home/content/y")]);
    c.directories = Some(map(&[("a", "//home/content/models"), ("b", "/tmp/z")]));
    c.git = vec![GitEntry {
        from_source: Some("https://x/r.git".to_string()),
        to_destination: Some("/home/content/repo".to_string()),
        branch: Some("dev".to_string()),
    }];
    c.dataset = Some(vec![Transfer { from_source: Some("http://d".to_string()), to_destination: Some("/home/content/d.bin".to_string()) }]);
    c.run = Some(vec![entry("python", "/home/content/train.py --out /home/content/o")]);
    let a = render(&c, ArtifactKind::ProvisioningScript, TS).unwrap();
    assert!(a.text.starts_with("#!/bin/bash\n"));
    assert!(a.text.contains("fi\nmkdir -p ./proj\nmkdir -p ./proj/models\nmkdir -p ./proj/tmp/z\n"));
    assert!(a.text.contains("export DATA=./proj/data/x:./proj/y\nexport model_name=proj\n"));
    assert!(a.text.contains("echo 'Cloning repository from: https://x/r.git'\ngit clone -b dev https://x/r.git ./proj/repo\nif [ -f ./proj/repo/requirements.txt ]; then\n"));
    assert!(a.text.contains("wget http://d -O ./proj/d.bin\n# Found no files, proceeding without them.\n"));
    assert!(a.text.ends_with("python ./proj/train.py --out ./proj/o\n"));
    assert!(!a.text.contains("Build complete"));
    assert!(a.diagnostics.is_empty());
}

#[test]
fn script_absent_sections() {
    let mut c = config();
    c.environment = map(&[("model_name", "m")]);
    let a = render(&c, ArtifactKind::ProvisioningScript, TS).unwrap();
    assert!(a.text.contains("mkdir -p ./m\n# Found no directories, proceeding without it.\nexport model_name=m\n if [[ $IS_COLAB -eq 0 ]]; then\n if ! pyenv versions"));
    assert!(a.text.ends_with("# Found no datasets, proceeding without them.\n# Found no files, proceeding without them.\n# Found no run commands, proceeding without them.\n"));
}

#[test]
fn script_entries_run_against_files() {
    let mut c = config();
    c.environment = map(&[("model_name", "m")]);
    c.script = Some(vec![
        ScriptEntry { command: Some("python".to_string()), file: Some("/home/content/a.py".to_string()) },
        ScriptEntry { command: Some("bash".to_string()), file: None },
        ScriptEntry { command: Some("sh".to_string()), file: Some("b.sh".to_string()) },
    ]);
    let a = render(&c, ArtifactKind::ProvisioningScript, TS).unwrap();
    assert!(a.text.ends_with("# Found no run commands, proceeding without them.\npython ./m/a.py\nsh b.sh\n"));
    assert_eq!(a.diagnostics, vec![Diagnostic::MalformedEntry(Section::Script)]);
}

#[test]
fn full_entry_point_from_last_script_entry() {
    let mut c = config();
    c.script = Some(vec![
        ScriptEntry { command: Some("python".to_string()), file: Some("prep.py".to_string()) },
        ScriptEntry { command: Some("python".to_string()), file: Some("serve.py".to_string()) },
    ]);
    let a = render(&c, ArtifactKind::ContainerFull, TS).unwrap();
    assert!(a.text.contains(
        "\n# Script commands\nRUN python prep.py\nRUN python serve.py\n\n# CMD command\nCMD [\"python\", \"serve.py\"]\n"
    ));
    assert!(a.diagnostics.is_empty());
}

#[test]
fn full_script_entry_point_errors() {
    let mut c = config();
    c.script = Some(Vec::new());
    assert_eq!(render(&c, ArtifactKind::ContainerFull, TS).err(), Some(GenerationError::Cardinality));
    c.script = Some(vec![ScriptEntry { command: Some("python".to_string()), file: None }]);
    assert_eq!(render(&c, ArtifactKind::ContainerFull, TS).err(), Some(GenerationError::MalformedEntryPoint));
}

#[test]
fn minimal_ignores_script_entries() {
    let mut c = config();
    c.script = Some(vec![ScriptEntry { command: Some("python".to_string()), file: Some("a.py".to_string()) }]);
    let a = render(&c, ArtifactKind::ContainerMinimal, TS).unwrap();
    assert!(!a.text.contains("a.py"));
}

#[test]
fn git_without_branch_is_cloned() {
    let mut c = config();
    c.git = vec![GitEntry { from_source: Some("https://x/r.git".to_string()), to_destination: Some("/src".to_string()), branch: None }];
    let a = render(&c, ArtifactKind::ContainerMinimal, TS).unwrap();
    assert!(a.text.contains("\nRUN git clone https://x/r.git /src\n"));
    assert!(a.diagnostics.is_empty());
    c.environment = map(&[("model_name", "m")]);
    c.git[0].to_destination = Some("/home/content/r".to_string());
    let s = render(&c, ArtifactKind::ProvisioningScript, TS).unwrap();
    assert!(s.text.contains("echo 'Cloning repository from: https://x/r.git'\ngit clone https://x/r.git ./m/r\nif [ -f ./m/r/requirements.txt ]; then\n"));
    assert!(s.diagnostics.is_empty());
}

#[test]
fn git_without_destination_is_noted() {
    let mut c = config();
    c.git = vec![GitEntry { from_source: Some("g".to_string()), to_destination: None, branch: Some("main".to_string()) }];
    let a = render(&c, ArtifactKind::ContainerMinimal, TS).unwrap();
    assert!(!a.text.contains("git clone"));
    assert_eq!(a.diagnostics, vec![Diagnostic::MalformedEntry(Section::Git)]);
}

#[test]
fn rejected_build_file_carries_parser_diagnostic() {
    let mut c = config();
    c.base_image = "ubuntu\n!!".to_string();
    let body = format!("{}FROM ubuntu\n!!\nRUN mkdir -p\n", header(TS));
    let expected = dockerfile_parser::Dockerfile::parse(&body).err().unwrap().to_string();
    assert_eq!(render(&c, ArtifactKind::ContainerMinimal, TS).err(), Some(GenerationError::Validation(expected)));
}

#[test]
fn empty_script_list_falls_back_to_cmd() {
    let mut c = config();
    c.script = Some(Vec::new());
    c.cmd = vec![entry("python", "app.py")];
    let a = render(&c, ArtifactKind::ContainerFull, TS).unwrap();
    assert!(a.text.contains("\n# Script commands\n\n# CMD command\nCMD [\"python\", \"app.py\"]\n"));
}

#[test]
fn script_and_cmd_entry_points_conflict() {
    let mut c = config();
    c.script = Some(vec![ScriptEntry { command: Some("python".to_string()), file: Some("serve.py".to_string()) }]);
    c.cmd = vec![entry("python", "app.py")];
    assert_eq!(render(&c, ArtifactKind::ContainerFull, TS).err(), Some(GenerationError::Cardinality));
    c.cmd = vec![entry("a", "b"), entry("c", "d")];
    assert_eq!(render(&c, ArtifactKind::ContainerFull, TS).err(), Some(GenerationError::Cardinality));
}

#[test]
fn current_time_stamp_layout() {
    let a = render_now(&config(), ArtifactKind::ContainerMinimal).unwrap();
    let lead = "# This file was automatically @generated by flatpack.ai on ";
    assert!(a.text.starts_with(lead));
    let rest = &a.text[lead.len()..];
    let stamp = &rest[..rest.find(".\n").unwrap()];
    assert_eq!(stamp.len(), 19);
    for (i, ch) in stamp.chars().enumerate() {
        match i {
            4 | 7 => assert_eq!(ch, '-'),
            10 => assert_eq!(ch, ' '),
            13 | 16 => assert_eq!(ch, ':'),
            _ => assert!(ch.is_ascii_digit()),
        }
    }
}
