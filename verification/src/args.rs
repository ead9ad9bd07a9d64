//! The command line: which sockets are served, for which clients.
use vstd::prelude::*;

use crate::outside::{debug_string, str_debug};
use crate::path::{
    decimal, file_name, joined, law_decimal, law_decimal_digit, law_file_in_dir, law_file_name,
    law_joined, law_joined_bytes, law_tail_stripped, parent, path_file_name, path_join, path_parent,
    push_decimal, SLASH,
};
use crate::ssr_client::{is_client_name, is_supported_client};
use crate::supervisor::Supervisor;
use crate::text::{
    all_white_space, is_white_space, law_split_at, law_split_whole, law_trimmed_kept,
    law_white_space_round, split, split_on, trim, trimmed, views,
};

verus! {

/// Arguments of the program.
#[derive(Debug, PartialEq, Eq)]
pub struct SsrArgs {
    /// Location of vhost-user Unix domain socket.
    pub socket_path: Vec<u8>,
    /// Names of ssr clients, one comma separated list for each socket.
    pub clients_groups: Vec<String>,
    /// Enable sd_notify
    pub enable_sd_notify: bool,
}

/// The socket of the group with index `i`: beside the given path, with the
/// index behind its file name.
pub open spec fn socket_path_of(path: Seq<u8>, i: nat) -> Seq<u8> {
    joined(parent(path), file_name(path)->0 + decimal(i))
}

/// The supported clients among `pieces`, each where it occurs first. White
/// space round a name does not matter.
pub open spec fn clients_among(pieces: Seq<Seq<char>>) -> Seq<Seq<char>>
    decreases pieces.len(),
{
    if pieces.len() == 0 {
        Seq::empty()
    } else {
        let before = clients_among(pieces.drop_last());
        let name = trimmed(pieces.last());
        if is_client_name(name) && !before.contains(name) {
            before.push(name)
        } else {
            before
        }
    }
}

/// The clients that a comma separated list asks for.
pub open spec fn clients_of(clients_group: Seq<char>) -> Seq<Seq<char>> {
    clients_among(split_on(clients_group, ','))
}

/// Whether `name` is one of `names`.
fn has_name(names: &Vec<String>, name: &String) -> (found: bool)
    ensures
        found == views(names@).contains(name@),
{
    let mut i: usize = 0;
    while i < names.len()
        invariant
            i <= names@.len(),
            forall|j: int| 0 <= j < i ==> views(names@)[j] != name@,
        decreases names@.len() - i,
    {
        if names[i] == *name {
            assert(views(names@)[i as int] == name@);
            return true;
        }
        i = i + 1;
    }
    false
}

/// The clients that a comma separated list asks for, each once. Names of no
/// client are left out.
pub fn supported_clients(clients_group: &str) -> (clients: Vec<String>)
    ensures
        views(clients@) == clients_of(clients_group@),
{
    let pieces = split(clients_group, ',');
    let mut clients: Vec<String> = Vec::new();
    let mut i: usize = 0;
    assert(views(clients@) =~= clients_among(views(pieces@).take(0)));
    while i < pieces.len()
        invariant
            i <= pieces@.len(),
            views(clients@) == clients_among(views(pieces@).take(i as int)),
        decreases pieces@.len() - i,
    {
        let ghost before = clients@;
        assert(views(pieces@).take(i + 1).drop_last() =~= views(pieces@).take(i as int));
        let name = trim(pieces[i].as_str()).to_owned();
        if is_supported_client(name.as_str()) && !has_name(&clients, &name) {
            clients.push(name);
            assert(views(clients@) =~= views(before).push(name@));
        }
        i = i + 1;
    }
    assert(views(pieces@).take(i as int) =~= views(pieces@));
    clients
}

/// Name of the thread that serves a group, from the group in its `Debug` form.
pub fn thread_name(quoted_group: &str) -> (name: String)
    ensures
        name@ == "vhu-vsock-ssr-"@ + quoted_group@,
{
    let mut name = "vhu-vsock-ssr-".to_owned();
    name.append(quoted_group);
    name
}

/// A thread that serves one socket.
#[derive(Debug, PartialEq, Eq)]
pub struct BackendThread {
    pub thread_id: usize,
    pub name: String,
    pub socket: Vec<u8>,
    pub clients_list: Vec<String>,
    pub enable_sd_notify: bool,
}

impl SsrArgs {
    /// The sockets to listen on, one for each group of clients.
    pub fn generate_socket_paths(&self) -> (paths: Vec<Vec<u8>>)
        requires
            file_name(self.socket_path@) is Some,
        ensures
            paths@.len() == self.clients_groups@.len(),
            forall|i: int|
                0 <= i < paths@.len() ==> (#[trigger] paths@[i])@ == socket_path_of(
                    self.socket_path@,
                    i as nat,
                ),
    {
        let socket_file_name = path_file_name(self.socket_path.as_slice()).unwrap();
        let socket_file_parent = path_parent(self.socket_path.as_slice());
        let mut paths: Vec<Vec<u8>> = Vec::new();
        let mut i: usize = 0;
        while i < self.clients_groups.len()
            invariant
                i <= self.clients_groups@.len(),
                paths@.len() == i,
                socket_file_name@ == file_name(self.socket_path@)->0,
                socket_file_parent@ == parent(self.socket_path@),
                forall|j: int|
                    0 <= j < i ==> (#[trigger] paths@[j])@ == socket_path_of(
                        self.socket_path@,
                        j as nat,
                    ),
            decreases self.clients_groups@.len() - i,
        {
            let mut name: Vec<u8> = socket_file_name.clone();
            assert(name@ =~= socket_file_name@);
            push_decimal(&mut name, i);
            paths.push(path_join(&socket_file_parent, &name));
            i = i + 1;
        }
        paths
    }
}

/// The threads to start, and the supervisor to report their ends to.
pub fn start_backend(args: &SsrArgs) -> (backend: (Vec<BackendThread>, Supervisor))
    requires
        file_name(args.socket_path@) is Some,
    ensures
        backend.0@.len() == args.clients_groups@.len(),
        forall|i: int|
            0 <= i < backend.0@.len() ==> {
                let thread = #[trigger] backend.0@[i];
                let group = args.clients_groups@[i]@;
                &&& thread.thread_id == i
                &&& thread.name@ == "vhu-vsock-ssr-"@ + str_debug(group)
                &&& thread.socket@ == socket_path_of(args.socket_path@, i as nat)
                &&& views(thread.clients_list@) == clients_of(group)
                &&& thread.enable_sd_notify == args.enable_sd_notify
            },
        backend.1.wf(),
        forall|id: usize| backend.1@.contains(id) <==> id < args.clients_groups@.len(),
{
    let sockets = args.generate_socket_paths();
    let ghost paths = sockets@;
    let mut threads: Vec<BackendThread> = Vec::new();
    let mut i: usize = 0;
    while i < sockets.len()
        invariant
            i <= sockets@.len(),
            sockets@ == paths,
            paths.len() == args.clients_groups@.len(),
            forall|j: int|
                0 <= j < paths.len() ==> (#[trigger] paths[j])@ == socket_path_of(
                    args.socket_path@,
                    j as nat,
                ),
            threads@.len() == i,
            forall|j: int|
                0 <= j < i ==> {
                    let thread = #[trigger] threads@[j];
                    let group = args.clients_groups@[j]@;
                    &&& thread.thread_id == j
                    &&& thread.name@ == "vhu-vsock-ssr-"@ + str_debug(group)
                    &&& thread.socket@ == socket_path_of(args.socket_path@, j as nat)
                    &&& views(thread.clients_list@) == clients_of(group)
                    &&& thread.enable_sd_notify == args.enable_sd_notify
                },
        decreases sockets@.len() - i,
    {
        let clients_group = args.clients_groups[i].as_str();
        let quoted = debug_string(clients_group);
        let socket: Vec<u8> = sockets[i].clone();
        assert(socket@ =~= paths[i as int]@);
        threads.push(
            BackendThread {
                thread_id: i,
                name: thread_name(quoted.as_str()),
                socket,
                clients_list: supported_clients(clients_group),
                enable_sd_notify: args.enable_sd_notify,
            },
        );
        i = i + 1;
    }
    let supervisor = Supervisor::new(i);
    (threads, supervisor)
}

/// No two groups share a socket.
pub proof fn law_sockets_differ(path: Seq<u8>, i: nat, j: nat)
    requires
        file_name(path) is Some,
        i != j,
    ensures
        socket_path_of(path, i) != socket_path_of(path, j),
{
    let name = file_name(path)->0;
    let dir = parent(path);
    let a = name + decimal(i);
    let b = name + decimal(j);
    if socket_path_of(path, i) == socket_path_of(path, j) {
        let start = if dir.len() == 0 || dir.last() == SLASH {
            dir
        } else {
            dir.push(SLASH)
        };
        assert((start + a).skip(start.len() as int) =~= a);
        assert((start + b).skip(start.len() as int) =~= b);
        assert(a.skip(name.len() as int) =~= decimal(i));
        assert(b.skip(name.len() as int) =~= decimal(j));
        law_decimal(i, j);
    }
}

/// Every socket lies in the directory of the given path, and its file name is
/// that of the given path with the index of its group.
pub proof fn law_socket_beside_path(path: Seq<u8>, i: nat)
    requires
        file_name(path) is Some,
    ensures
        file_name(socket_path_of(path, i)) == Some(file_name(path)->0 + decimal(i)),
        parent(socket_path_of(path, i)) == parent(path),
{
    let name = file_name(path)->0 + decimal(i);
    law_file_name(path);
    law_decimal_digit(i);
    assert(name.last() == decimal(i).last());
    assert forall|k: int| 0 <= k < name.len() implies name[k] != SLASH by {
        if k < file_name(path)->0.len() {
            assert(name[k] == file_name(path)->0[k]);
        } else {
            assert(name[k] == decimal(i)[k - file_name(path)->0.len()]);
        }
    }
    law_joined(parent(path), name);
}

/// A group's clients are exactly the supported names it lists, each once.
pub proof fn law_clients_of(clients_group: Seq<char>)
    ensures
        clients_of(clients_group).no_duplicates(),
        forall|name: Seq<char>| #[trigger]
            clients_of(clients_group).contains(name) <==> is_client_name(name) && exists|k: int|
                0 <= k < split_on(clients_group, ',').len() && name == trimmed(
                    #[trigger] split_on(clients_group, ',')[k],
                ),
{
    lemma_clients_among(split_on(clients_group, ','));
}

proof fn lemma_clients_among(pieces: Seq<Seq<char>>)
    ensures
        clients_among(pieces).no_duplicates(),
        forall|name: Seq<char>| #[trigger]
            clients_among(pieces).contains(name) <==> is_client_name(name) && exists|k: int|
                0 <= k < pieces.len() && name == trimmed(#[trigger] pieces[k]),
    decreases pieces.len(),
{
    if pieces.len() > 0 {
        let init = pieces.drop_last();
        let before = clients_among(init);
        let last = trimmed(pieces.last());
        lemma_clients_among(init);
        assert forall|name: Seq<char>| #[trigger]
            clients_among(pieces).contains(name) <==> is_client_name(name) && exists|k: int|
                0 <= k < pieces.len() && name == trimmed(#[trigger] pieces[k]) by {
            if before.contains(name) {
                let i = choose|i: int| 0 <= i < before.len() && before[i] == name;
                assert(clients_among(pieces)[i] == name);
                let k = choose|k: int| 0 <= k < init.len() && name == trimmed(#[trigger] init[k]);
                assert(pieces[k] == init[k]);
            } else if is_client_name(name) {
                if name == last {
                    assert(clients_among(pieces).last() == name);
                    assert(pieces[pieces.len() - 1] == pieces.last());
                } else {
                    assert forall|k: int| 0 <= k < pieces.len() implies name != trimmed(
                        #[trigger] pieces[k],
                    ) by {
                        if k < init.len() {
                            assert(init[k] == pieces[k]);
                        }
                    }
                }
            }
        }
    }
}

/// The socket of a group is the given path with the index of the group behind
/// it, where the path has no more slashes and dots than it needs.
pub proof fn law_socket_path(dir: Seq<u8>, name: Seq<u8>, i: nat)
    requires
        name.len() > 0,
        !name.contains(47),
        name != seq![46u8],
        name != seq![46u8, 46u8],
    ensures
        socket_path_of(name, i) == name + decimal(i),
        socket_path_of(seq![47u8] + name, i) == seq![47u8] + name + decimal(i),
        dir.len() > 0 && dir.last() != 47 && !(dir.len() > 1 && dir.last() == 46 && dir[dir.len()
            - 2] == 47) ==> socket_path_of(dir + seq![47u8] + name, i) == dir + seq![47u8] + name
            + decimal(i),
{
    let numbered = name + decimal(i);
    law_file_in_dir(dir, name);
    law_joined_bytes(Seq::<u8>::empty(), numbered);
    law_joined_bytes(dir, numbered);
    assert(Seq::<u8>::empty() + seq![47u8] =~= seq![47u8]);
    assert(seq![47u8] + numbered =~= seq![47u8] + name + decimal(i));
    assert(dir + seq![47u8] + numbered =~= dir + seq![47u8] + name + decimal(i));
}

/// A slash or a `.` component at the end of the given path changes no socket.
pub proof fn law_socket_path_tail(path: Seq<u8>, i: nat)
    requires
        path.len() > 0,
    ensures
        socket_path_of(path + seq![47u8], i) == socket_path_of(path, i),
        socket_path_of(path + seq![47u8, 46u8], i) == socket_path_of(path, i),
{
    law_tail_stripped(path);
}

/// A list of one name asks for that client, if it is one.
pub proof fn law_clients_of_one(piece: Seq<char>)
    requires
        !piece.contains(','),
    ensures
        is_client_name(trimmed(piece)) ==> clients_of(piece) == seq![trimmed(piece)],
        !is_client_name(trimmed(piece)) ==> clients_of(piece).len() == 0,
{
    law_split_whole(piece, ',');
    let pieces = seq![piece];
    assert(pieces.drop_last() =~= Seq::<Seq<char>>::empty());
    assert(clients_among(pieces.drop_last()) =~= Seq::<Seq<char>>::empty());
    assert(pieces.last() == piece);
    if is_client_name(trimmed(piece)) {
        assert(clients_among(pieces) =~= seq![trimmed(piece)]);
    }
}

/// One more name in a list asks for one more client, if it is a client that the
/// list does not ask for yet, and changes nothing otherwise.
pub proof fn law_clients_of_next(clients_group: Seq<char>, piece: Seq<char>)
    requires
        !piece.contains(','),
    ensures
        is_client_name(trimmed(piece)) && !clients_of(clients_group).contains(trimmed(piece))
            ==> clients_of(clients_group + seq![','] + piece) == clients_of(clients_group).push(
            trimmed(piece),
        ),
        !is_client_name(trimmed(piece)) || clients_of(clients_group).contains(trimmed(piece))
            ==> clients_of(clients_group + seq![','] + piece) == clients_of(clients_group),
{
    law_split_at(clients_group, piece, ',');
    law_split_whole(piece, ',');
    let pieces = split_on(clients_group, ',') + seq![piece];
    assert(pieces.drop_last() =~= split_on(clients_group, ','));
    assert(pieces.last() == piece);
}

/// Two lists in one ask for the clients that one of them asks for.
pub proof fn law_clients_of_both(first: Seq<char>, second: Seq<char>)
    ensures
        forall|name: Seq<char>| #[trigger]
            clients_of(first + seq![','] + second).contains(name) <==> clients_of(first).contains(
                name,
            ) || clients_of(second).contains(name),
{
    let a = split_on(first, ',');
    let b = split_on(second, ',');
    law_split_at(first, second, ',');
    lemma_clients_among(a);
    lemma_clients_among(b);
    lemma_clients_among(a + b);
    assert forall|name: Seq<char>| #[trigger]
        clients_of(first + seq![','] + second).contains(name) <==> clients_of(first).contains(name)
            || clients_of(second).contains(name) by {
        if clients_among(a + b).contains(name) {
            let k = choose|k: int|
                0 <= k < (a + b).len() && name == trimmed(#[trigger] (a + b)[k]);
            if k < a.len() {
                assert(a[k] == (a + b)[k]);
            } else {
                assert(b[k - a.len()] == (a + b)[k]);
            }
        }
        if clients_among(a).contains(name) {
            let k = choose|k: int| 0 <= k < a.len() && name == trimmed(#[trigger] a[k]);
            assert((a + b)[k] == a[k]);
        }
        if clients_among(b).contains(name) {
            let k = choose|k: int| 0 <= k < b.len() && name == trimmed(#[trigger] b[k]);
            assert((a + b)[k + a.len()] == b[k]);
        }
    }
}

/// A supported client that is named is asked for by its whole name, whatever
/// white space stands round it.
pub proof fn law_named_client(before: Seq<char>, name: Seq<char>, after: Seq<char>)
    requires
        is_client_name(name),
        all_white_space(before),
        all_white_space(after),
    ensures
        clients_of(before + name + after) == seq![name],
{
    reveal_strlit("ADSP");
    reveal_strlit("ADSP1");
    reveal_strlit("ADSP2");
    reveal_strlit("SLPI");
    reveal_strlit("CDSP");
    reveal_strlit("CDSP1");
    reveal_strlit("CDSP2");
    reveal_strlit("CDSP3");
    reveal_strlit("GPDSP0");
    reveal_strlit("GPDSP1");
    reveal_strlit("HPASSC0");
    reveal_strlit("HPASSC1");
    reveal_strlit("HPASSC2");
    let piece = before + name + after;
    assert forall|i: int| 0 <= i < piece.len() implies piece[i] != ',' by {
        if i < before.len() {
            assert(piece[i] == before[i]);
            assert(is_white_space(before[i]));
        } else if i < before.len() + name.len() {
            assert(piece[i] == name[i - before.len()]);
        } else {
            assert(piece[i] == after[i - before.len() - name.len()]);
            assert(is_white_space(after[i - before.len() - name.len()]));
        }
    }
    law_white_space_round(before, name, after);
    law_trimmed_kept(name);
    law_clients_of_one(piece);
}

/// The thread of a group is found by the index of the group, serves the group's
/// own socket and clients, and has the group in its name.
pub proof fn law_threads(args: SsrArgs, backend: (Vec<BackendThread>, Supervisor), i: int)
    requires
        call_ensures(start_backend, (&args,), backend),
        0 <= i < args.clients_groups@.len(),
    ensures
        backend.0@.len() == args.clients_groups@.len(),
        backend.0@[i].thread_id == i,
        backend.0@[i].socket@ == socket_path_of(args.socket_path@, i as nat),
        backend.0@[i].enable_sd_notify == args.enable_sd_notify,
        backend.0@[i].name@.take(14) == "vhu-vsock-ssr-"@,
        backend.0@[i].name@.skip(14) == str_debug(args.clients_groups@[i]@),
        views(backend.0@[i].clients_list@).no_duplicates(),
        forall|name: Seq<char>| #[trigger]
            views(backend.0@[i].clients_list@).contains(name) <==> is_client_name(name) && exists|k: int|
                0 <= k < split_on(args.clients_groups@[i]@, ',').len() && name == trimmed(
                    #[trigger] split_on(args.clients_groups@[i]@, ',')[k],
                ),
        backend.1@.contains(i as usize),
{
    reveal_strlit("vhu-vsock-ssr-");
    let name = backend.0@[i].name@;
    assert(args.clients_groups.len() == args.clients_groups@.len());
    assert(name == "vhu-vsock-ssr-"@ + str_debug(args.clients_groups@[i]@));
    assert(name.take(14) =~= "vhu-vsock-ssr-"@);
    assert(name.skip(14) =~= str_debug(args.clients_groups@[i]@));
    law_clients_of(args.clients_groups@[i]@);
}

} // verus!
