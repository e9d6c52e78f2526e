use container_launcher::errors::LaunchError;
use container_launcher::image::Image;
use container_launcher::isolation::exit_code_for;
use container_launcher::isolation::install_command;
use container_launcher::isolation::isolation_plan;
use container_launcher::isolation::parent_dir;
use container_launcher::isolation::resolve_command_path;
use container_launcher::isolation::rootfs_dest;
use container_launcher::isolation::IsolationStep;
use container_launcher::registry::auth_endpoint;
use container_launcher::registry::auth_service;
use container_launcher::registry::blob_url;
use container_launcher::registry::manifest_media_type;
use container_launcher::registry::manifest_url;
use container_launcher::registry::pull_scope;
use container_launcher::registry::Layer;
use container_launcher::registry::Manifest;
use container_launcher::rootfs::decode_layer;
use container_launcher::rootfs::Rootfs;
use container_launcher::rootfs::TarEntry;

fn entry(path: &str, data: &[u8]) -> TarEntry {
    TarEntry { path: path.to_string(), data: data.to_vec() }
}

fn gzipped_tar(files: &[(&str, &[u8])]) -> Vec<u8> {
    let mut builder = tar::Builder::new(Vec::new());
    for (path, data) in files {
        let mut header = tar::Header::new_gnu();
        header.set_size(data.len() as u64);
        builder.append_data(&mut header, path, *data).unwrap();
    }
    let tarball = builder.into_inner().unwrap();
    let mut gz = flate2::write::GzEncoder::new(Vec::new(), flate2::Compression::default());
    std::io::Write::write_all(&mut gz, &tarball).unwrap();
    gz.finish().unwrap()
}

#[test]
fn parse_without_colon_defaults_to_latest() {
    let img = Image::from_str("busybox");
    assert_eq!(img.name, "busybox");
    assert_eq!(img.reference, "latest");
}

#[test]
fn parse_empty_string() {
    let img = Image::from_str("");
    assert_eq!(img.name, "");
    assert_eq!(img.reference, "latest");
}

#[test]
fn parse_with_colon_splits_repository_and_tag() {
    let img = Image::from_str("ubuntu:22.04");
    assert_eq!(img.name, "ubuntu");
    assert_eq!(img.reference, "22.04");
}

#[test]
fn parse_splits_at_first_colon_only() {
    let img = Image::from_str("a:b:c");
    assert_eq!(img.name, "a");
    assert_eq!(img.reference, "b:c");
}

#[test]
fn parse_leading_colon_gives_empty_repository() {
    let img = Image::from_str(":tag");
    assert_eq!(img.name, "");
    assert_eq!(img.reference, "tag");
}

#[test]
fn registry_constants_are_exact() {
    assert_eq!(auth_endpoint(), "https://auth.docker.io/token");
    assert_eq!(auth_service(), "registry.docker.io");
    assert_eq!(
        manifest_media_type(),
        "application/vnd.docker.distribution.manifest.v2+json"
    );
}

#[test]
fn pull_scope_names_the_repository() {
    assert_eq!(pull_scope("busybox"), "repository:library/busybox:push,pull");
}

#[test]
fn manifest_url_is_keyed_by_repository_and_tag() {
    let img = Image::from_str("busybox:1.36");
    assert_eq!(
        manifest_url(&img),
        "https://registry.hub.docker.com/v2/library/busybox/manifests/1.36"
    );
}

#[test]
fn blob_url_is_keyed_by_repository_and_digest() {
    let img = Image::from_str("busybox");
    let layer = Layer { digest: "sha256:abc123".to_string() };
    assert_eq!(
        blob_url(&img, &layer),
        "https://registry.hub.docker.com/v2/library/busybox/blobs/sha256:abc123"
    );
}

#[test]
fn manifest_keeps_layer_order() {
    let manifest = Manifest {
        layers: vec![
            Layer { digest: "sha256:first".to_string() },
            Layer { digest: "sha256:second".to_string() },
        ],
    };
    assert_eq!(manifest.layers[0].digest, "sha256:first");
    assert_eq!(manifest.layers[1].digest, "sha256:second");
}

#[test]
fn resolve_strips_leading_separator() {
    assert_eq!(resolve_command_path("/usr/bin/foo"), "usr/bin/foo");
}

#[test]
fn resolve_keeps_relative_path() {
    assert_eq!(resolve_command_path("bin/sh"), "bin/sh");
}

#[test]
fn resolve_strips_repeated_separators() {
    assert_eq!(resolve_command_path("//tool"), "tool");
}

#[test]
fn resolve_empty_path() {
    assert_eq!(resolve_command_path(""), "");
}

#[test]
fn parent_dir_takes_everything_before_last_slash() {
    assert_eq!(parent_dir("/tmp/root/usr/bin/foo"), "/tmp/root/usr/bin");
    assert_eq!(parent_dir("a/b"), "a");
}

#[test]
fn rootfs_dest_joins_with_one_separator() {
    assert_eq!(rootfs_dest("/tmp/root", "usr/bin/foo"), "/tmp/root/usr/bin/foo");
}

#[test]
fn isolation_plan_is_ordered_and_exact() {
    let plan = isolation_plan("/tmp/root", "/usr/bin/foo");
    assert_eq!(plan.len(), 7);
    match &plan[0] {
        IsolationStep::CreateDirAll { path } => assert_eq!(path, "/tmp/root/usr/bin"),
        step => panic!("step 0 out of order: {:?}", step),
    }
    match &plan[1] {
        IsolationStep::CopyFile { src, dest } => {
            assert_eq!(src, "/usr/bin/foo");
            assert_eq!(dest, "/tmp/root/usr/bin/foo");
        }
        step => panic!("step 1 out of order: {:?}", step),
    }
    match &plan[2] {
        IsolationStep::SwitchRoot { dir } => assert_eq!(dir, "/tmp/root"),
        step => panic!("step 2 out of order: {:?}", step),
    }
    match &plan[3] {
        IsolationStep::SetWorkdir { dir } => assert_eq!(dir, "/"),
        step => panic!("step 3 out of order: {:?}", step),
    }
    match &plan[4] {
        IsolationStep::CreateDirAll { path } => assert_eq!(path, "/dev"),
        step => panic!("step 4 out of order: {:?}", step),
    }
    match &plan[5] {
        IsolationStep::CreateFile { path } => assert_eq!(path, "/dev/null"),
        step => panic!("step 5 out of order: {:?}", step),
    }
    assert!(matches!(plan[6], IsolationStep::UnsharePidNamespace));
}

#[test]
fn later_layer_overwrites_earlier_one() {
    let mut fs = Rootfs::new();
    fs.apply_layer(vec![entry("etc/conf", b"from layer one"), entry("bin/a", b"a1")]);
    fs.apply_layer(vec![entry("etc/conf", b"from layer two")]);
    let got = fs.lookup(&"etc/conf".to_string()).unwrap();
    assert_eq!(got, b"from layer two");
    assert_eq!(fs.lookup(&"bin/a".to_string()).unwrap(), b"a1");
}

#[test]
fn layer_order_decides_the_winner() {
    let mut fs = Rootfs::new();
    fs.apply_layer(vec![entry("etc/conf", b"from layer two")]);
    fs.apply_layer(vec![entry("etc/conf", b"from layer one"), entry("bin/a", b"a1")]);
    let got = fs.lookup(&"etc/conf".to_string()).unwrap();
    assert_eq!(got, b"from layer one");
}

#[test]
fn last_entry_within_one_layer_wins() {
    let mut fs = Rootfs::new();
    fs.apply_layer(vec![entry("x", b"old"), entry("x", b"new")]);
    assert_eq!(fs.lookup(&"x".to_string()).unwrap(), b"new");
}

#[test]
fn lookup_misses_unwritten_path() {
    let mut fs = Rootfs::new();
    fs.apply_layer(vec![entry("bin/a", b"a1")]);
    assert!(fs.lookup(&"bin/b".to_string()).is_none());
    assert!(Rootfs::new().lookup(&"bin/a".to_string()).is_none());
}

#[test]
fn decode_layer_reads_gzipped_tar() {
    let blob = gzipped_tar(&[("bin/echo", b"hello"), ("etc/issue", b"greetings")]);
    let entries = decode_layer(&blob).unwrap();
    assert_eq!(entries.len(), 2);
    assert_eq!(entries[0].path, "bin/echo");
    assert_eq!(entries[0].data, b"hello");
    assert_eq!(entries[1].path, "etc/issue");
    assert_eq!(entries[1].data, b"greetings");
}

#[test]
fn decode_layer_rejects_bytes_that_are_not_gzip() {
    let err = decode_layer(b"definitely not a gzip stream").unwrap_err();
    assert_eq!(err, LaunchError::UnpackError);
}

#[test]
fn decode_layer_rejects_gzip_that_is_not_tar() {
    let mut gz = flate2::write::GzEncoder::new(Vec::new(), flate2::Compression::default());
    std::io::Write::write_all(&mut gz, b"short and not a tar archive").unwrap();
    let blob = gz.finish().unwrap();
    assert_eq!(decode_layer(&blob).unwrap_err(), LaunchError::UnpackError);
}

#[test]
fn decoded_layers_assemble_in_order() {
    let blob1 = gzipped_tar(&[("etc/conf", b"one")]);
    let blob2 = gzipped_tar(&[("etc/conf", b"two")]);
    let mut fs = Rootfs::new();
    fs.apply_layer(decode_layer(&blob1).unwrap());
    fs.apply_layer(decode_layer(&blob2).unwrap());
    assert_eq!(fs.lookup(&"etc/conf".to_string()).unwrap(), b"two");
}

#[test]
fn install_command_stores_the_host_bytes() {
    let mut fs = Rootfs::new();
    let r = install_command(&mut fs, "usr/bin/foo".to_string(), Some(b"elf bytes".to_vec()));
    assert!(r.is_ok());
    assert_eq!(fs.lookup(&"usr/bin/foo".to_string()).unwrap(), b"elf bytes");
}

#[test]
fn install_command_fails_without_host_bytes() {
    let mut fs = Rootfs::new();
    fs.apply_layer(vec![entry("bin/a", b"a1")]);
    let err = install_command(&mut fs, "usr/bin/foo".to_string(), None).unwrap_err();
    assert_eq!(err, LaunchError::FileCopyError);
    assert!(fs.lookup(&"usr/bin/foo".to_string()).is_none());
}

#[test]
fn zero_layer_manifest_gives_trivial_rootfs_and_copy_failure() {
    let manifest = Manifest { layers: vec![] };
    let mut fs = Rootfs::new();
    for _layer in manifest.layers.iter() {
        unreachable!();
    }
    assert!(fs.lookup(&"bin/echo".to_string()).is_none());
    let err = install_command(&mut fs, resolve_command_path("/bin/echo"), None).unwrap_err();
    assert_eq!(err, LaunchError::FileCopyError);
}

#[test]
fn busybox_echo_pipeline_model() {
    let img = Image::from_str("busybox");
    assert_eq!(img.name, "busybox");
    assert_eq!(img.reference, "latest");
    assert_eq!(
        manifest_url(&img),
        "https://registry.hub.docker.com/v2/library/busybox/manifests/latest"
    );
    let blob = gzipped_tar(&[("bin/echo", b"echo binary")]);
    let mut fs = Rootfs::new();
    fs.apply_layer(decode_layer(&blob).unwrap());
    let resolved = resolve_command_path("/bin/echo");
    assert_eq!(resolved, "bin/echo");
    assert!(fs.lookup(&resolved).is_some());
    assert_eq!(exit_code_for(Some(0)), 0);
}

#[test]
fn exit_code_is_propagated() {
    assert_eq!(exit_code_for(Some(0)), 0);
    assert_eq!(exit_code_for(Some(42)), 42);
    assert_eq!(exit_code_for(None), 0);
}

#[test]
fn error_messages_name_the_operation() {
    assert_eq!(LaunchError::ArgumentError.message(), "malformed invocation");
    assert_eq!(LaunchError::AuthError.message(), "failed to obtain registry token");
    assert_eq!(LaunchError::ManifestError.message(), "failed to fetch manifest");
    assert_eq!(LaunchError::LayerFetchError.message(), "failed to fetch layer");
    assert_eq!(LaunchError::UnpackError.message(), "failed to unpack layer");
    assert_eq!(
        LaunchError::FileCopyError.message(),
        "failed to copy command into rootfs"
    );
    assert_eq!(LaunchError::ChrootError.message(), "failed to switch root");
    assert_eq!(
        LaunchError::NamespaceError.message(),
        "failed to isolate pid namespace"
    );
    assert_eq!(LaunchError::ExecError.message(), "failed to run command");
}
