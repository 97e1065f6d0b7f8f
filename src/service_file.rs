//! The service unit descriptor and its unit-file text.
use vstd::prelude::*;
use crate::decimal::{append_decimal, dec};

verus! {

/// A service unit: what the service manager needs to run and supervise the
/// deployed program, in the three sections of a unit file.
pub struct ServiceFile {
    pub unit: Unit,
    pub service: Service,
    pub install: Install,
}

/// The identity section of a unit file.
pub struct Unit {
    pub description: String,
    pub start_limit_interval_sec: u64,
    pub after: String,
}

/// The execution section of a unit file.
pub struct Service {
    pub type_: String,
    pub restart: String,
    pub restart_sec: u64,
    pub user: String,
    pub working_directory: String,
    pub exec_start: String,
}

/// The install-target section of a unit file.
pub struct Install {
    pub wanted_by: String,
}

/// The newline that ends each line of a unit file.
pub open spec fn newline() -> Seq<char> {
    seq!['\n']
}

/// The lines of the unit file of `f`, in order, without their line ends.
pub open spec fn unit_lines(f: ServiceFile) -> Seq<Seq<char>> {
    seq![
        "[Unit]"@,
        "Description="@ + f.unit.description@,
        "StartLimitIntervalSec="@ + dec(f.unit.start_limit_interval_sec as nat),
        "After="@ + f.unit.after@,
        Seq::empty(),
        "[Service]"@,
        "Type="@ + f.service.type_@,
        "Restart="@ + f.service.restart@,
        "RestartSec="@ + dec(f.service.restart_sec as nat),
        "User="@ + f.service.user@,
        "WorkingDirectory="@ + f.service.working_directory@,
        "ExecStart="@ + f.service.exec_start@,
        Seq::empty(),
        "[Install]"@,
        "WantedBy="@ + f.install.wanted_by@,
    ]
}

/// The lines `ls`, each followed by a newline.
pub open spec fn join_lines(ls: Seq<Seq<char>>) -> Seq<char>
    decreases ls.len(),
{
    if ls.len() == 0 {
        Seq::empty()
    } else {
        join_lines(ls.drop_last()) + ls.last() + newline()
    }
}

/// The unit-file text of `f`.
pub open spec fn unit_text(f: ServiceFile) -> Seq<char> {
    join_lines(unit_lines(f))
}

/// The length of the first line of `t`: the characters before the first newline.
pub open spec fn line_end(t: Seq<char>) -> nat
    decreases t.len(),
{
    if t.len() == 0 {
        0
    } else if t[0] == '\n' {
        0
    } else {
        1 + line_end(t.skip(1))
    }
}

/// Whether `line` starts with `prefix`.
pub open spec fn starts_with(line: Seq<char>, prefix: Seq<char>) -> bool {
    prefix.len() <= line.len() && line.take(prefix.len() as int) == prefix
}

/// Reads a unit-file text as the service manager does: the value of the first
/// line of the form `key=value`, if there is one.
pub open spec fn value_of(t: Seq<char>, key: Seq<char>) -> Option<Seq<char>>
    decreases t.len(),
{
    if t.len() == 0 {
        None
    } else {
        let n = line_end(t);
        let line = t.take(n as int);
        let prefix = key.push('=');
        if starts_with(line, prefix) {
            Some(line.skip(prefix.len() as int))
        } else if n < t.len() {
            value_of(t.skip(n + 1 as int), key)
        } else {
            None
        }
    }
}

/// The value of the first of the lines `ls` of the form `key=value`.
pub open spec fn lookup(ls: Seq<Seq<char>>, key: Seq<char>) -> Option<Seq<char>>
    decreases ls.len(),
{
    if ls.len() == 0 {
        None
    } else if starts_with(ls[0], key.push('=')) {
        Some(ls[0].skip(key.len() + 1 as int))
    } else {
        lookup(ls.drop_first(), key)
    }
}

proof fn lemma_join_take(ls: Seq<Seq<char>>, k: int)
    requires
        0 <= k < ls.len(),
    ensures
        join_lines(ls.take(k + 1)) == join_lines(ls.take(k)) + ls[k] + newline(),
{
    assert(ls.take(k + 1).drop_last() =~= ls.take(k));
}

proof fn lemma_join_front(ls: Seq<Seq<char>>)
    requires
        ls.len() > 0,
    ensures
        join_lines(ls) == ls[0] + newline() + join_lines(ls.drop_first()),
    decreases ls.len(),
{
    if ls.len() == 1 {
        assert(ls.drop_first() =~= Seq::<Seq<char>>::empty());
        assert(ls.drop_last() =~= Seq::<Seq<char>>::empty());
        assert(join_lines(ls.drop_last()) == Seq::<char>::empty());
        assert(join_lines(ls.drop_first()) == Seq::<char>::empty());
        assert(join_lines(ls) =~= ls[0] + newline());
    } else {
        lemma_join_front(ls.drop_last());
        assert(ls.drop_last().drop_first() =~= ls.drop_first().drop_last());
        assert(ls.drop_last()[0] == ls[0]);
        assert(ls.drop_first().last() == ls.last());
        assert(join_lines(ls) =~= ls[0] + newline() + join_lines(ls.drop_first()));
    }
}

proof fn lemma_line_end(line: Seq<char>, rest: Seq<char>)
    requires
        !line.contains('\n'),
    ensures
        line_end(line + newline() + rest) == line.len(),
    decreases line.len(),
{
    let t = line + newline() + rest;
    if line.len() == 0 {
        assert(t[0] == '\n');
    } else {
        assert(t[0] == line[0]);
        assert(!line.skip(1).contains('\n')) by {
            if line.skip(1).contains('\n') {
                let i = choose|i: int| 0 <= i < line.skip(1).len() && line.skip(1)[i] == '\n';
                assert(line[i + 1] == '\n');
            }
        }
        lemma_line_end(line.skip(1), rest);
        assert(t.skip(1) =~= line.skip(1) + newline() + rest);
    }
}

/// Reading the text of a list of single lines finds what a lookup in the
/// list finds.
proof fn lemma_value_of_join(ls: Seq<Seq<char>>, key: Seq<char>)
    requires
        forall|i: int| 0 <= i < ls.len() ==> !(#[trigger] ls[i]).contains('\n'),
    ensures
        value_of(join_lines(ls), key) == lookup(ls, key),
    decreases ls.len(),
{
    if ls.len() > 0 {
        let rest = join_lines(ls.drop_first());
        lemma_join_front(ls);
        lemma_line_end(ls[0], rest);
        let t = join_lines(ls);
        assert(t.take(ls[0].len() as int) =~= ls[0]);
        assert(t.skip(ls[0].len() + 1 as int) =~= rest);
        assert(key.push('=').len() == key.len() + 1);
        lemma_value_of_join(ls.drop_first(), key);
    }
}

proof fn lemma_no_newline_concat(a: Seq<char>, b: Seq<char>)
    requires
        !a.contains('\n'),
        !b.contains('\n'),
    ensures
        !(a + b).contains('\n'),
{
    if (a + b).contains('\n') {
        let i = choose|i: int| 0 <= i < (a + b).len() && (a + b)[i] == '\n';
        if i < a.len() {
            assert(a[i] == '\n');
        } else {
            assert(b[i - a.len()] == '\n');
        }
    }
}

proof fn lemma_dec_digits(n: nat)
    ensures
        !dec(n).contains('\n'),
    decreases n,
{
    if n >= 10 {
        lemma_dec_digits(n / 10);
        lemma_no_newline_concat(dec(n / 10), seq![crate::decimal::digit_char(n % 10)]);
        assert(dec(n) =~= dec(n / 10) + seq![crate::decimal::digit_char(n % 10)]);
    } else {
        assert(dec(n)[0] != '\n');
    }
}

proof fn lemma_not_starts(line: Seq<char>, prefix: Seq<char>)
    requires
        prefix.len() > 0,
        line.len() > 0 ==> line[0] != prefix[0],
    ensures
        !starts_with(line, prefix),
{
    if starts_with(line, prefix) {
        assert(line.take(prefix.len() as int)[0] == line[0]);
    }
}

proof fn lemma_lookup_at(ls: Seq<Seq<char>>, key: Seq<char>, k: int)
    requires
        0 <= k < ls.len(),
        forall|i: int| 0 <= i < k ==> !starts_with(#[trigger] ls[i], key.push('=')),
        starts_with(ls[k], key.push('=')),
    ensures
        lookup(ls, key) == Some(ls[k].skip(key.len() + 1 as int)),
    decreases k,
{
    if k > 0 {
        assert(!starts_with(ls[0], key.push('=')));
        let rest = ls.drop_first();
        assert forall|i: int| 0 <= i < k - 1 implies !starts_with(#[trigger] rest[i], key.push('=')) by {
            assert(rest[i] == ls[i + 1]);
        }
        lemma_lookup_at(rest, key, k - 1);
    }
}

proof fn lemma_unit_lines_single(f: ServiceFile)
    requires
        f.single_line_fields(),
    ensures
        forall|i: int| 0 <= i < unit_lines(f).len() ==> !(#[trigger] unit_lines(f)[i]).contains('\n'),
{
    reveal_strlit("[Unit]");
    reveal_strlit("Description=");
    reveal_strlit("StartLimitIntervalSec=");
    reveal_strlit("After=");
    reveal_strlit("[Service]");
    reveal_strlit("Type=");
    reveal_strlit("Restart=");
    reveal_strlit("RestartSec=");
    reveal_strlit("User=");
    reveal_strlit("WorkingDirectory=");
    reveal_strlit("ExecStart=");
    reveal_strlit("[Install]");
    reveal_strlit("WantedBy=");
    lemma_dec_digits(f.unit.start_limit_interval_sec as nat);
    lemma_dec_digits(f.service.restart_sec as nat);
    lemma_no_newline_concat("Description="@, f.unit.description@);
    lemma_no_newline_concat("StartLimitIntervalSec="@, dec(f.unit.start_limit_interval_sec as nat));
    lemma_no_newline_concat("After="@, f.unit.after@);
    lemma_no_newline_concat("Type="@, f.service.type_@);
    lemma_no_newline_concat("Restart="@, f.service.restart@);
    lemma_no_newline_concat("RestartSec="@, dec(f.service.restart_sec as nat));
    lemma_no_newline_concat("User="@, f.service.user@);
    lemma_no_newline_concat("WorkingDirectory="@, f.service.working_directory@);
    lemma_no_newline_concat("ExecStart="@, f.service.exec_start@);
    lemma_no_newline_concat("WantedBy="@, f.install.wanted_by@);
}

/// The unit-file text is read back by the service manager's rule (the first
/// `key=value` line of each key) to the description, working directory and
/// executable path it was made from, provided that no field holds a line
/// break.
pub proof fn lemma_unit_text_round_trip(f: ServiceFile)
    requires
        f.single_line_fields(),
    ensures
        value_of(unit_text(f), "Description"@) == Some(f.unit.description@),
        value_of(unit_text(f), "WorkingDirectory"@) == Some(f.service.working_directory@),
        value_of(unit_text(f), "ExecStart"@) == Some(f.service.exec_start@),
{
    let ls = unit_lines(f);
    lemma_unit_lines_single(f);
    reveal_strlit("[Unit]");
    reveal_strlit("Description=");
    reveal_strlit("StartLimitIntervalSec=");
    reveal_strlit("After=");
    reveal_strlit("[Service]");
    reveal_strlit("Type=");
    reveal_strlit("Restart=");
    reveal_strlit("RestartSec=");
    reveal_strlit("User=");
    reveal_strlit("WorkingDirectory=");
    reveal_strlit("ExecStart=");
    reveal_strlit("[Install]");
    reveal_strlit("WantedBy=");
    reveal_strlit("Description");
    reveal_strlit("WorkingDirectory");
    reveal_strlit("ExecStart");
    let d = "Description"@;
    let w = "WorkingDirectory"@;
    let e = "ExecStart"@;
    lemma_value_of_join(ls, d);
    lemma_value_of_join(ls, w);
    lemma_value_of_join(ls, e);
    assert(d.push('=') =~= "Description="@);
    assert(w.push('=') =~= "WorkingDirectory="@);
    assert(e.push('=') =~= "ExecStart="@);
    assert forall|i: int| 0 <= i < 1 implies !starts_with(#[trigger] ls[i], d.push('=')) by {
        lemma_not_starts(ls[i], d.push('='));
    }
    assert(ls[1].take(d.len() + 1 as int) =~= d.push('='));
    lemma_lookup_at(ls, d, 1);
    assert(ls[1].skip(d.len() + 1 as int) =~= f.unit.description@);
    assert forall|i: int| 0 <= i < 10 implies !starts_with(#[trigger] ls[i], w.push('=')) by {
        lemma_not_starts(ls[i], w.push('='));
    }
    assert(ls[10].take(w.len() + 1 as int) =~= w.push('='));
    lemma_lookup_at(ls, w, 10);
    assert(ls[10].skip(w.len() + 1 as int) =~= f.service.working_directory@);
    assert forall|i: int| 0 <= i < 11 implies !starts_with(#[trigger] ls[i], e.push('=')) by {
        lemma_not_starts(ls[i], e.push('='));
    }
    assert(ls[11].take(e.len() + 1 as int) =~= e.push('='));
    lemma_lookup_at(ls, e, 11);
    assert(ls[11].skip(e.len() + 1 as int) =~= f.service.exec_start@);
}

/// The unit-file text depends on the values of the fields alone: two units
/// whose fields hold the same values have the same text.
pub proof fn lemma_unit_text_deterministic(f: ServiceFile, g: ServiceFile)
    requires
        f.unit.description@ == g.unit.description@,
        f.unit.start_limit_interval_sec == g.unit.start_limit_interval_sec,
        f.unit.after@ == g.unit.after@,
        f.service.type_@ == g.service.type_@,
        f.service.restart@ == g.service.restart@,
        f.service.restart_sec == g.service.restart_sec,
        f.service.user@ == g.service.user@,
        f.service.working_directory@ == g.service.working_directory@,
        f.service.exec_start@ == g.service.exec_start@,
        f.install.wanted_by@ == g.install.wanted_by@,
    ensures
        unit_text(f) == unit_text(g),
{
    assert(unit_lines(f) =~= unit_lines(g));
}

impl ServiceFile {
    /// The three values that a deployment supplies are set, and no string
    /// field holds a line break.
    pub open spec fn single_line_fields(&self) -> bool {
        &&& !self.unit.description@.contains('\n')
        &&& !self.unit.after@.contains('\n')
        &&& !self.service.type_@.contains('\n')
        &&& !self.service.restart@.contains('\n')
        &&& !self.service.user@.contains('\n')
        &&& !self.service.working_directory@.contains('\n')
        &&& !self.service.exec_start@.contains('\n')
        &&& !self.install.wanted_by@.contains('\n')
    }

    /// The fields that no constructor lets a caller choose hold their fixed values.
    pub open spec fn has_defaults(&self) -> bool {
        &&& self.unit.start_limit_interval_sec == 0
        &&& self.unit.after@ == "network.target"@
        &&& self.service.type_@ == "exec"@
        &&& self.service.restart@ == "always"@
        &&& self.service.restart_sec == 1
        &&& self.service.user@ == "administrator"@
        &&& self.install.wanted_by@ == "multi-user.target"@
    }

    /// The description, working directory and executable path are set.
    pub open spec fn wf(&self) -> bool {
        &&& self.has_defaults()
        &&& self.unit.description@.len() > 0
        &&& self.service.working_directory@.len() > 0
        &&& self.service.exec_start@.len() > 0
    }

    /// A unit with the fixed defaults and empty description, working
    /// directory and executable path.
    pub fn default() -> (r: ServiceFile)
        ensures
            r.has_defaults(),
            r.unit.description@.len() == 0,
            r.service.working_directory@.len() == 0,
            r.service.exec_start@.len() == 0,
    {
        ServiceFile {
            unit: Unit {
                description: String::new(),
                start_limit_interval_sec: 0,
                after: String::from_str("network.target"),
            },
            service: Service {
                type_: String::from_str("exec"),
                restart: String::from_str("always"),
                restart_sec: 1,
                user: String::from_str("administrator"),
                working_directory: String::new(),
                exec_start: String::new(),
            },
            install: Install { wanted_by: String::from_str("multi-user.target") },
        }
    }

    /// A unit with the fixed defaults, running `executable` in
    /// `working_directory` under the description `name`.
    pub fn new(name: &str, working_directory: &str, executable: &str) -> (r: ServiceFile)
        ensures
            r.has_defaults(),
            r.unit.description@ == name@,
            r.service.working_directory@ == working_directory@,
            r.service.exec_start@ == executable@,
            r.wf() <==> (name@.len() > 0 && working_directory@.len() > 0 && executable@.len()
                > 0),
    {
        let mut service_file = ServiceFile::default();
        service_file.unit.description = String::from_str(name);
        service_file.service.working_directory = String::from_str(working_directory);
        service_file.service.exec_start = String::from_str(executable);
        service_file
    }

    /// The unit-file text: the three sections, one `key=value` line per
    /// field, values unquoted, a blank line between sections.
    pub fn serialize(&self) -> (r: String)
        ensures
            r@ == unit_text(*self),
    {
        let ghost ls = unit_lines(*self);
        let mut out = String::new();
        proof {
            reveal_strlit("");
        }
        assert(""@ + ""@ =~= Seq::<char>::empty());
        assert("[Unit]"@ + ""@ =~= "[Unit]"@);
        assert(ls.take(0) =~= Seq::<Seq<char>>::empty());
        append_line(&mut out, Ghost(ls), 0, "[Unit]", "");
        append_line(&mut out, Ghost(ls), 1, "Description=", self.unit.description.as_str());
        append_number_line(
            &mut out,
            Ghost(ls),
            2,
            "StartLimitIntervalSec=",
            self.unit.start_limit_interval_sec,
        );
        append_line(&mut out, Ghost(ls), 3, "After=", self.unit.after.as_str());
        append_line(&mut out, Ghost(ls), 4, "", "");
        append_line(&mut out, Ghost(ls), 5, "[Service]", "");
        append_line(&mut out, Ghost(ls), 6, "Type=", self.service.type_.as_str());
        append_line(&mut out, Ghost(ls), 7, "Restart=", self.service.restart.as_str());
        append_number_line(&mut out, Ghost(ls), 8, "RestartSec=", self.service.restart_sec);
        append_line(&mut out, Ghost(ls), 9, "User=", self.service.user.as_str());
        append_line(
            &mut out,
            Ghost(ls),
            10,
            "WorkingDirectory=",
            self.service.working_directory.as_str(),
        );
        append_line(&mut out, Ghost(ls), 11, "ExecStart=", self.service.exec_start.as_str());
        append_line(&mut out, Ghost(ls), 12, "", "");
        append_line(&mut out, Ghost(ls), 13, "[Install]", "");
        append_line(&mut out, Ghost(ls), 14, "WantedBy=", self.install.wanted_by.as_str());
        assert(ls.take(15) =~= ls);
        out
    }
}

fn append_line(
    out: &mut String,
    Ghost(ls): Ghost<Seq<Seq<char>>>,
    k: usize,
    key: &str,
    value: &str,
)
    requires
        k < ls.len(),
        old(out)@ == join_lines(ls.take(k as int)),
        ls[k as int] == key@ + value@,
    ensures
        final(out)@ == join_lines(ls.take(k + 1)),
{
    proof {
        lemma_join_take(ls, k as int);
        reveal_strlit("\n");
    }
    let ghost start = out@;
    out.append(key);
    out.append(value);
    out.append("\n");
    assert(out@ =~= start + ls[k as int] + newline());
}

fn append_number_line(
    out: &mut String,
    Ghost(ls): Ghost<Seq<Seq<char>>>,
    k: usize,
    key: &str,
    value: u64,
)
    requires
        k < ls.len(),
        old(out)@ == join_lines(ls.take(k as int)),
        ls[k as int] == key@ + dec(value as nat),
    ensures
        final(out)@ == join_lines(ls.take(k + 1)),
{
    proof {
        lemma_join_take(ls, k as int);
        reveal_strlit("\n");
    }
    let ghost start = out@;
    out.append(key);
    append_decimal(out, value);
    out.append("\n");
    assert(out@ =~= start + ls[k as int] + newline());
}

} // verus!
