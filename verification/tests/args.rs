use std::collections::HashSet;
use std::path::Path;

use vhost_device_ssr::args::{start_backend, supported_clients, thread_name, SsrArgs};
use vhost_device_ssr::path::{path_file_name, path_join, path_parent, push_decimal};
use vhost_device_ssr::supervisor::{SupervisorStep, ThreadOutcome};

#[test]
fn verify_generate_socket_paths() {
    let args = SsrArgs {
        socket_path: "/some/socket_path".as_bytes().to_vec(),
        clients_groups: vec![String::from("CDSP,CDSP1"), String::from("GPDSP0,GPDSP1")],
        enable_sd_notify: false,
    };
    let paths = args.generate_socket_paths();

    assert_eq!(
        paths,
        vec![
            "/some/socket_path0".as_bytes().to_vec(),
            "/some/socket_path1".as_bytes().to_vec(),
        ]
    );
}

#[test]
fn verify_support_client_arguments() {
    let clients_group = String::from("CDSP,CDSP1,ADSP,GPDSP0,GPDSP1,A,B,C");
    let clients_list: Vec<String> = supported_clients(&clients_group);
    let expected_val = vec![
        String::from("CDSP"),
        String::from("CDSP1"),
        String::from("ADSP"),
        String::from("GPDSP0"),
        String::from("GPDSP1"),
    ];
    assert_eq!(
        clients_list.into_iter().collect::<HashSet<_>>(),
        expected_val.into_iter().collect::<HashSet<_>>()
    );
}

#[test]
fn clients_are_listed_once() {
    assert_eq!(
        supported_clients(" CDSP ,\tSLPI,CDSP,cdsp,,CDSP1,SLPI\n"),
        vec!["CDSP".to_string(), "SLPI".to_string(), "CDSP1".to_string()]
    );
    assert_eq!(supported_clients(""), Vec::<String>::new());
    assert_eq!(supported_clients("CDSP CDSP1"), Vec::<String>::new());
    assert_eq!(supported_clients("HPASSC0,HPASSC1,HPASSC2").len(), 3);
}

#[test]
fn sockets_have_the_index_of_their_group() {
    let args = SsrArgs {
        socket_path: "run//ssr.sock/.".as_bytes().to_vec(),
        clients_groups: vec![String::from("CDSP"); 12],
        enable_sd_notify: false,
    };
    let paths = args.generate_socket_paths();
    assert_eq!(paths.len(), 12);
    for (i, path) in paths.iter().enumerate() {
        assert_eq!(*path, format!("run/ssr.sock{}", i).into_bytes());
        assert_eq!(path_file_name(path), Some(format!("ssr.sock{}", i).into_bytes()));
        assert_eq!(path_parent(path), path_parent(&args.socket_path));
    }
    assert_eq!(paths.into_iter().collect::<HashSet<_>>().len(), 12);
}

#[test]
fn paths_that_are_not_text_are_kept() {
    let args = SsrArgs {
        socket_path: vec![47, 255, 47, 254],
        clients_groups: vec![String::from("CDSP")],
        enable_sd_notify: false,
    };
    assert_eq!(args.generate_socket_paths(), vec![vec![47, 255, 47, 254, 48]]);
}

/// Every text of up to `len` characters of the alphabet.
fn texts(alphabet: &[char], len: usize) -> Vec<String> {
    let mut all = vec![String::new()];
    let mut last = all.clone();
    for _ in 0..len {
        let mut next = Vec::new();
        for text in &last {
            for c in alphabet {
                let mut longer = text.clone();
                longer.push(*c);
                next.push(longer);
            }
        }
        all.extend(next.iter().cloned());
        last = next;
    }
    all
}

#[test]
fn paths_are_taken_apart_as_std_does() {
    for text in texts(&['/', '.', 'a'], 8) {
        let path = Path::new(&text);
        let expected = path.file_name().map(|n| n.to_str().unwrap().as_bytes().to_vec());
        assert_eq!(path_file_name(text.as_bytes()), expected, "{}", text);
        if expected.is_some() {
            let parent = path.parent().unwrap().to_str().unwrap().as_bytes().to_vec();
            assert_eq!(path_parent(text.as_bytes()), parent, "{}", text);
            let joined = path.parent().unwrap().join("b7");
            assert_eq!(
                path_join(&parent, &"b7".as_bytes().to_vec()),
                joined.to_str().unwrap().as_bytes().to_vec(),
                "{}",
                text
            );
        }
    }
}

#[test]
fn numbers_are_written_in_decimal() {
    for n in [0, 7, 9, 10, 11, 99, 100, 101, 12345, usize::MAX] {
        let mut bytes = "n".as_bytes().to_vec();
        push_decimal(&mut bytes, n);
        assert_eq!(bytes, format!("n{}", n).into_bytes());
    }
}

#[test]
fn one_thread_serves_each_group() {
    let args = SsrArgs {
        socket_path: "ssr".as_bytes().to_vec(),
        clients_groups: vec![String::from("CDSP,X"), String::from("SL\"PI\n,ADSP")],
        enable_sd_notify: true,
    };
    let (threads, mut supervisor) = start_backend(&args);
    assert_eq!(threads.len(), 2);
    assert_eq!(threads[0].thread_id, 0);
    assert_eq!(threads[0].name, "vhu-vsock-ssr-\"CDSP,X\"");
    assert_eq!(threads[0].socket, "ssr0".as_bytes().to_vec());
    assert_eq!(threads[0].clients_list, vec!["CDSP".to_string()]);
    assert!(threads[0].enable_sd_notify);
    assert_eq!(threads[1].thread_id, 1);
    assert_eq!(threads[1].name, format!("vhu-vsock-ssr-{:?}", args.clients_groups[1]));
    assert_eq!(threads[1].name, "vhu-vsock-ssr-\"SL\\\"PI\\n,ADSP\"");
    assert_eq!(threads[1].socket, "ssr1".as_bytes().to_vec());
    assert_eq!(threads[1].clients_list, vec!["ADSP".to_string()]);

    assert!(!supervisor.is_done());
    assert_eq!(supervisor.finished(1, ThreadOutcome::Finished), SupervisorStep::Wait);
    assert_eq!(supervisor.finished(0, ThreadOutcome::Finished), SupervisorStep::Done);
    assert!(supervisor.is_done());
}

#[test]
fn thread_name_has_the_quoted_group() {
    assert_eq!(thread_name("\"CDSP\""), "vhu-vsock-ssr-\"CDSP\"");
}
