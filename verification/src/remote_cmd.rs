//! Remote shell commands as values: each knows how to render itself to
//! a command line and how to read its result out of standard output.

use vstd::prelude::*;
use crate::shell::{escape, shell_quoted};
use crate::text::{chars_of, split, split_ranges, string_of, trim, trim_range, trimmed};

verus! {

/// A command that can be run on the far side of a session.
pub trait RemoteCommand {
    /// What the command's output is parsed into.
    type Output: DeepView;

    /// The command line, before any elevation.
    spec fn shell_string(&self) -> Seq<char>;

    /// What standard output `output` parses into; `None` when it holds
    /// no result.
    spec fn parsed(&self, output: Seq<char>) -> Option<<Self::Output as DeepView>::V>;

    /// Renders the command line.
    fn to_shell_string(&self) -> (s: String)
        ensures
            s@ == self.shell_string(),
    ;

    /// Renders the command line, run through `sudo -n` when `use_sudo`
    /// is set.
    fn build_shell_string(&self, use_sudo: bool) -> (s: String)
        ensures
            s@ == if use_sudo {
                "sudo -n "@ + self.shell_string()
            } else {
                self.shell_string()
            },
    {
        let shell_string = self.to_shell_string();
        if use_sudo {
            let mut s = String::from_str("sudo -n ");
            s.append(shell_string.as_str());
            s
        } else {
            shell_string
        }
    }

    /// Reads the result out of standard output.
    fn parse_output(&self, output: &str) -> (r: Option<Self::Output>)
        ensures
            match r {
                Some(o) => self.parsed(output@) == Some(o.deep_view()),
                None => self.parsed(output@) is None,
            },
    ;
}

/// One row of a container listing.
#[derive(Debug, PartialEq, Eq)]
pub struct ContainerInfo {
    pub id: String,
    pub image: String,
    pub name: String,
    pub ports: Vec<String>,
    pub status: String,
}

/// The mathematical value of a [`ContainerInfo`].
pub struct ContainerInfoView {
    pub id: Seq<char>,
    pub image: Seq<char>,
    pub name: Seq<char>,
    pub ports: Seq<Seq<char>>,
    pub status: Seq<char>,
}

impl DeepView for ContainerInfo {
    type V = ContainerInfoView;

    open spec fn deep_view(&self) -> ContainerInfoView {
        ContainerInfoView {
            id: self.id@,
            image: self.image@,
            name: self.name@,
            ports: self.ports.deep_view(),
            status: self.status@,
        }
    }
}

/// The trimmed, nonempty ones among `pieces`, in order.
pub open spec fn nonempty_trimmed(pieces: Seq<Seq<char>>) -> Seq<Seq<char>>
    decreases pieces.len(),
{
    if pieces.len() == 0 {
        Seq::<Seq<char>>::empty()
    } else {
        let before = nonempty_trimmed(pieces.drop_last());
        let t = trim(pieces.last());
        if t.len() == 0 {
            before
        } else {
            before.push(t)
        }
    }
}

/// The port mappings in the ports column of a listing row: its
/// comma-separated entries, trimmed, without the empty ones.
pub open spec fn port_list(field: Seq<char>) -> Seq<Seq<char>> {
    nonempty_trimmed(split(field, ','))
}

/// The container a listing line describes.
///
/// The line is trimmed and cut at `|`. A blank line, or one with fewer
/// than five columns, describes none. The columns are id, image, name,
/// ports and status; columns after the fifth are ignored.
pub open spec fn container_line(line: Seq<char>) -> Option<ContainerInfoView> {
    let t = trim(line);
    let parts = split(t, '|');
    if t.len() == 0 || parts.len() < 5 {
        None
    } else {
        Some(
            ContainerInfoView {
                id: parts[0],
                image: parts[1],
                name: parts[2],
                ports: port_list(parts[3]),
                status: parts[4],
            },
        )
    }
}

/// The containers that `lines` describe, in order; lines that describe
/// none are skipped.
pub open spec fn container_records(lines: Seq<Seq<char>>) -> Seq<ContainerInfoView>
    decreases lines.len(),
{
    if lines.len() == 0 {
        Seq::<ContainerInfoView>::empty()
    } else {
        let before = container_records(lines.drop_last());
        match container_line(lines.last()) {
            Some(r) => before.push(r),
            None => before,
        }
    }
}

/// The format handed to `docker ps`, which puts one container on a
/// line with `|` between the columns.
pub open spec fn listing_command() -> Seq<char> {
    "docker ps --format '{{.ID}}|{{.Image}}|{{.Names}}|{{.Ports}}|{{.Status}}'"@
}

/// Lists the running containers, optionally only those whose row
/// mentions a keyword.
#[derive(Debug, PartialEq, Eq)]
pub struct GetContainerInfoCmd {
    pub keyword: Option<String>,
}

fn parse_ports(v: &Vec<char>, from: usize, to: usize) -> (ports: Vec<String>)
    requires
        from <= to <= v.len(),
    ensures
        ports.deep_view() == port_list(v@.subrange(from as int, to as int)),
{
    let pieces = split_ranges(v, from, to, ',');
    let ghost all = split(v@.subrange(from as int, to as int), ',');
    let mut ports: Vec<String> = Vec::new();
    let mut k: usize = 0;
    assert(all.take(0) =~= Seq::<Seq<char>>::empty());
    assert(ports.deep_view() =~= Seq::<Seq<char>>::empty());
    while k < pieces.len()
        invariant
            k <= pieces@.len() == all.len(),
            from <= to <= v.len(),
            all == split(v@.subrange(from as int, to as int), ','),
            forall|j: int|
                0 <= j < pieces@.len() ==> from <= (#[trigger] pieces@[j]).0 <= pieces@[j].1 <= to
                    && v@.subrange(pieces@[j].0 as int, pieces@[j].1 as int) == all[j],
            ports.deep_view() == nonempty_trimmed(all.take(k as int)),
        decreases pieces.len() - k,
    {
        let (a, b) = pieces[k];
        let (ta, tb) = trim_range(v, a, b);
        assert(all.take(k + 1).drop_last() =~= all.take(k as int));
        assert(all.take(k + 1).last() == all[k as int]);
        if ta < tb {
            let ghost old_ports = ports.deep_view();
            let s = string_of(v, ta, tb);
            ports.push(s);
            assert(ports.deep_view() =~= old_ports.push(s@));
        }
        k += 1;
    }
    assert(all.take(k as int) =~= all);
    ports
}

fn parse_container_line(v: &Vec<char>, from: usize, to: usize) -> (r: Option<ContainerInfo>)
    requires
        from <= to <= v.len(),
    ensures
        match r {
            Some(info) => container_line(v@.subrange(from as int, to as int)) == Some(
                info.deep_view(),
            ),
            None => container_line(v@.subrange(from as int, to as int)) is None,
        },
{
    let (ta, tb) = trim_range(v, from, to);
    if ta == tb {
        return None;
    }
    let parts = split_ranges(v, ta, tb, '|');
    if parts.len() < 5 {
        return None;
    }
    let id = string_of(v, parts[0].0, parts[0].1);
    let image = string_of(v, parts[1].0, parts[1].1);
    let name = string_of(v, parts[2].0, parts[2].1);
    let ports = parse_ports(v, parts[3].0, parts[3].1);
    let status = string_of(v, parts[4].0, parts[4].1);
    Some(ContainerInfo { id, image, name, ports, status })
}

impl RemoteCommand for GetContainerInfoCmd {
    type Output = Vec<ContainerInfo>;

    open spec fn shell_string(&self) -> Seq<char> {
        match self.keyword {
            Some(k) => listing_command() + " | grep "@ + shell_quoted(k@),
            None => listing_command(),
        }
    }

    open spec fn parsed(&self, output: Seq<char>) -> Option<Seq<ContainerInfoView>> {
        Some(container_records(split(output, '\n')))
    }

    fn to_shell_string(&self) -> (s: String) {
        let mut s = String::from_str(
            "docker ps --format '{{.ID}}|{{.Image}}|{{.Names}}|{{.Ports}}|{{.Status}}'",
        );
        match &self.keyword {
            Some(k) => {
                s.append(" | grep ");
                let quoted = escape(k.as_str());
                s.append(quoted.as_str());
                s
            },
            None => s,
        }
    }

    fn parse_output(&self, output: &str) -> (r: Option<Vec<ContainerInfo>>) {
        let v = chars_of(output);
        let lines = split_ranges(&v, 0, v.len(), '\n');
        assert(v@.subrange(0, v@.len() as int) =~= v@);
        let ghost all = split(v@, '\n');
        let mut containers: Vec<ContainerInfo> = Vec::new();
        let mut k: usize = 0;
        assert(all.take(0) =~= Seq::<Seq<char>>::empty());
        assert(containers.deep_view() =~= Seq::<ContainerInfoView>::empty());
        while k < lines.len()
            invariant
                k <= lines@.len() == all.len(),
                forall|j: int|
                    0 <= j < lines@.len() ==> (#[trigger] lines@[j]).0 <= lines@[j].1 <= v.len()
                        && v@.subrange(lines@[j].0 as int, lines@[j].1 as int) == all[j],
                containers.deep_view() == container_records(all.take(k as int)),
            decreases lines.len() - k,
        {
            let (a, b) = lines[k];
            assert(all.take(k + 1).drop_last() =~= all.take(k as int));
            assert(all.take(k + 1).last() == all[k as int]);
            match parse_container_line(&v, a, b) {
                Some(info) => {
                    let ghost old_records = containers.deep_view();
                    let ghost record = info.deep_view();
                    containers.push(info);
                    assert(containers.deep_view() =~= old_records.push(record));
                },
                None => {},
            }
            k += 1;
        }
        assert(all.take(k as int) =~= all);
        Some(containers)
    }
}

/// The inspection that prints the addresses of a container, one after
/// the other with nothing between them.
pub open spec fn inspect_command() -> Seq<char> {
    "docker inspect -f '{{range .NetworkSettings.Networks}}{{.IPAddress}}{{end}}' "@
}

/// Looks up the address of a container by name.
#[derive(Debug, PartialEq, Eq)]
pub struct GetContainerAddrCmd {
    pub container_name: String,
}

impl RemoteCommand for GetContainerAddrCmd {
    type Output = String;

    open spec fn shell_string(&self) -> Seq<char> {
        inspect_command() + shell_quoted(self.container_name@)
    }

    open spec fn parsed(&self, output: Seq<char>) -> Option<Seq<char>> {
        if trim(output).len() == 0 {
            None
        } else {
            Some(trim(output))
        }
    }

    fn to_shell_string(&self) -> (s: String) {
        let mut s = String::from_str(
            "docker inspect -f '{{range .NetworkSettings.Networks}}{{.IPAddress}}{{end}}' ",
        );
        let quoted = escape(self.container_name.as_str());
        s.append(quoted.as_str());
        s
    }

    fn parse_output(&self, output: &str) -> (r: Option<String>) {
        let ip = trimmed(output);
        if ip.as_str().is_empty() {
            None
        } else {
            Some(ip)
        }
    }
}

/// A container as the picker shows it.
#[derive(Debug, PartialEq, Eq)]
pub struct DockerContainer {
    pub id: String,
    pub image: String,
    pub name: String,
    pub ports: Vec<String>,
    pub status: String,
}

impl DeepView for DockerContainer {
    type V = ContainerInfoView;

    open spec fn deep_view(&self) -> ContainerInfoView {
        ContainerInfoView {
            id: self.id@,
            image: self.image@,
            name: self.name@,
            ports: self.ports.deep_view(),
            status: self.status@,
        }
    }
}

impl DockerContainer {
    /// The picker's entry for a listing row: the same five columns.
    pub fn from(value: &ContainerInfo) -> (c: DockerContainer)
        ensures
            c.deep_view() == value.deep_view(),
    {
        let mut ports: Vec<String> = Vec::new();
        let mut k: usize = 0;
        while k < value.ports.len()
            invariant
                k <= value.ports.len(),
                ports.deep_view() =~= value.ports.deep_view().take(k as int),
            decreases value.ports.len() - k,
        {
            let ghost before = ports.deep_view();
            let p = value.ports[k].clone();
            ports.push(p);
            assert(ports.deep_view() =~= before.push(p@));
            k += 1;
        }
        assert(value.ports.deep_view().take(k as int) =~= value.ports.deep_view());
        DockerContainer {
            id: value.id.clone(),
            image: value.image.clone(),
            name: value.name.clone(),
            ports,
            status: value.status.clone(),
        }
    }
}

/// What is shown of one container beyond its listing row.
#[derive(Debug, PartialEq, Eq)]
pub struct ContainerDetails {
    pub ip: String,
}

impl ContainerDetails {
    /// The details read from what the inspection printed: the output,
    /// trimmed, is the address; it is empty when the container has
    /// none.
    pub fn from_output(output: &str) -> (d: ContainerDetails)
        ensures
            d.ip@ == trim(output@),
    {
        ContainerDetails { ip: trimmed(output) }
    }
}

} // verus!
