use vstd::prelude::*;

verus! {

/// The passphrase of an import, as text or as raw bytes.
pub enum Passphrase {
    Text(String),
    Bytes(Vec<u8>),
}

/// The settings of a general import: what each option was last set to.
/// `K` is the keychain the imported items go to.
pub struct ImportOptions<K> {
    pub filename: Option<String>,
    pub pkcs12: bool,
    pub passphrase: Option<Passphrase>,
    pub secure_passphrase: bool,
    pub no_access_control: bool,
    pub alert_title: Option<String>,
    pub alert_prompt: Option<String>,
    pub keychain: Option<K>,
}

/// One option handed to the native import, in the order the import applies
/// them.
pub enum ImportStep<'a, K> {
    Filename(&'a String),
    Pkcs12,
    Passphrase(&'a String),
    PassphraseBytes(&'a Vec<u8>),
    SecurePassphrase(bool),
    NoAccessControl(bool),
    AlertTitle(&'a String),
    AlertPrompt(&'a String),
    Keychain(&'a K),
}

/// The file-name step, where a file name was given.
pub open spec fn filename_step<'a, K>(options: &'a ImportOptions<K>) -> Seq<ImportStep<'a, K>> {
    match &options.filename {
        Some(name) => seq![ImportStep::Filename(name)],
        None => Seq::empty(),
    }
}

/// The PKCS#12 step, where that format was asked for.
pub open spec fn pkcs12_step<'a, K>(options: &'a ImportOptions<K>) -> Seq<ImportStep<'a, K>> {
    if options.pkcs12 {
        seq![ImportStep::Pkcs12]
    } else {
        Seq::empty()
    }
}

/// The passphrase step, where a passphrase was given.
pub open spec fn passphrase_step<'a, K>(options: &'a ImportOptions<K>) -> Seq<ImportStep<'a, K>> {
    match &options.passphrase {
        Some(Passphrase::Text(text)) => seq![ImportStep::Passphrase(text)],
        Some(Passphrase::Bytes(bytes)) => seq![ImportStep::PassphraseBytes(bytes)],
        None => Seq::empty(),
    }
}

/// The two flag steps, always taken.
pub open spec fn flag_steps<'a, K>(options: &'a ImportOptions<K>) -> Seq<ImportStep<'a, K>> {
    seq![
        ImportStep::SecurePassphrase(options.secure_passphrase),
        ImportStep::NoAccessControl(options.no_access_control),
    ]
}

/// The prompt and keychain steps, each where it was given.
pub open spec fn closing_steps<'a, K>(options: &'a ImportOptions<K>) -> Seq<ImportStep<'a, K>> {
    (match &options.alert_title {
        Some(title) => seq![ImportStep::AlertTitle(title)],
        None => Seq::empty(),
    }) + (match &options.alert_prompt {
        Some(prompt) => seq![ImportStep::AlertPrompt(prompt)],
        None => Seq::empty(),
    }) + (match &options.keychain {
        Some(keychain) => seq![ImportStep::Keychain(keychain)],
        None => Seq::empty(),
    })
}

/// The options an import hands to the native side, in order: the file name,
/// the PKCS#12 format and the passphrase where they were given, the two
/// flags always, then the alert title, the alert prompt and the keychain
/// where they were given.
pub open spec fn import_steps<'a, K>(options: &'a ImportOptions<K>) -> Seq<ImportStep<'a, K>> {
    filename_step(options) + pkcs12_step(options) + passphrase_step(options) + flag_steps(options)
        + closing_steps(options)
}

impl<K> ImportOptions<K> {
    /// Options with nothing set.
    pub fn new() -> (options: Self)
        ensures
            options.filename is None,
            !options.pkcs12,
            options.passphrase is None,
            !options.secure_passphrase,
            !options.no_access_control,
            options.alert_title is None,
            options.alert_prompt is None,
            options.keychain is None,
    {
        ImportOptions {
            filename: None,
            pkcs12: false,
            passphrase: None,
            secure_passphrase: false,
            no_access_control: false,
            alert_title: None,
            alert_prompt: None,
            keychain: None,
        }
    }

    /// Names the file the data came from.
    pub fn filename(&mut self, filename: String)
        ensures
            *final(self) == (ImportOptions { filename: Some(filename), ..*old(self) }),
    {
        self.filename = Some(filename);
    }

    /// Reads the data as PKCS#12.
    pub fn pkcs12(&mut self)
        ensures
            *final(self) == (ImportOptions { pkcs12: true, ..*old(self) }),
    {
        self.pkcs12 = true;
    }

    /// Sets a text passphrase, replacing any passphrase set before.
    pub fn passphrase(&mut self, passphrase: String)
        ensures
            *final(self) == (ImportOptions { passphrase: Some(Passphrase::Text(passphrase)), ..*old(self) }),
    {
        self.passphrase = Some(Passphrase::Text(passphrase));
    }

    /// Sets a passphrase of raw bytes, replacing any passphrase set before.
    pub fn passphrase_bytes(&mut self, passphrase: Vec<u8>)
        ensures
            *final(self) == (ImportOptions { passphrase: Some(Passphrase::Bytes(passphrase)), ..*old(self) }),
    {
        self.passphrase = Some(Passphrase::Bytes(passphrase));
    }

    /// Whether the passphrase is asked for in a secure prompt.
    pub fn secure_passphrase(&mut self, secure_passphrase: bool)
        ensures
            *final(self) == (ImportOptions { secure_passphrase, ..*old(self) }),
    {
        self.secure_passphrase = secure_passphrase;
    }

    /// Whether imported keys get no access control list.
    pub fn no_access_control(&mut self, no_access_control: bool)
        ensures
            *final(self) == (ImportOptions { no_access_control, ..*old(self) }),
    {
        self.no_access_control = no_access_control;
    }

    /// The title of the passphrase prompt.
    pub fn alert_title(&mut self, alert_title: String)
        ensures
            *final(self) == (ImportOptions { alert_title: Some(alert_title), ..*old(self) }),
    {
        self.alert_title = Some(alert_title);
    }

    /// The text of the passphrase prompt.
    pub fn alert_prompt(&mut self, alert_prompt: String)
        ensures
            *final(self) == (ImportOptions { alert_prompt: Some(alert_prompt), ..*old(self) }),
    {
        self.alert_prompt = Some(alert_prompt);
    }

    /// The keychain the imported items go to.
    pub fn keychain(&mut self, keychain: K)
        ensures
            *final(self) == (ImportOptions { keychain: Some(keychain), ..*old(self) }),
    {
        self.keychain = Some(keychain);
    }

    /// The options to hand to the native import, in the order it applies
    /// them.
    pub fn steps(&self) -> (steps: Vec<ImportStep<'_, K>>)
        ensures
            steps@ == import_steps(self),
    {
        let mut steps: Vec<ImportStep<'_, K>> = Vec::new();
        self.push_opening_steps(&mut steps);
        self.push_flag_steps(&mut steps);
        self.push_closing_steps(&mut steps);
        assert(steps@ =~= import_steps(self));
        steps
    }

    fn push_opening_steps<'a>(&'a self, steps: &mut Vec<ImportStep<'a, K>>)
        ensures
            final(steps)@ == old(steps)@ + filename_step(self) + pkcs12_step(self) + passphrase_step(self),
    {
        let ghost start = steps@;
        if let Some(name) = &self.filename {
            steps.push(ImportStep::Filename(name));
        }
        assert(steps@ =~= start + filename_step(self));
        let ghost done = steps@;
        if self.pkcs12 {
            steps.push(ImportStep::Pkcs12);
        }
        assert(steps@ =~= done + pkcs12_step(self));
        let ghost done2 = steps@;
        match &self.passphrase {
            Some(Passphrase::Text(text)) => steps.push(ImportStep::Passphrase(text)),
            Some(Passphrase::Bytes(bytes)) => steps.push(ImportStep::PassphraseBytes(bytes)),
            None => {},
        }
        assert(steps@ =~= done2 + passphrase_step(self));
        assert(steps@ =~= start + filename_step(self) + pkcs12_step(self) + passphrase_step(self));
    }

    fn push_flag_steps<'a>(&'a self, steps: &mut Vec<ImportStep<'a, K>>)
        ensures
            final(steps)@ == old(steps)@ + flag_steps(self),
    {
        steps.push(ImportStep::SecurePassphrase(self.secure_passphrase));
        steps.push(ImportStep::NoAccessControl(self.no_access_control));
        assert(steps@ =~= old(steps)@ + flag_steps(self));
    }

    fn push_closing_steps<'a>(&'a self, steps: &mut Vec<ImportStep<'a, K>>)
        ensures
            final(steps)@ == old(steps)@ + closing_steps(self),
    {
        let ghost start = steps@;
        if let Some(title) = &self.alert_title {
            steps.push(ImportStep::AlertTitle(title));
        }
        if let Some(prompt) = &self.alert_prompt {
            steps.push(ImportStep::AlertPrompt(prompt));
        }
        if let Some(keychain) = &self.keychain {
            steps.push(ImportStep::Keychain(keychain));
        }
        assert(steps@ =~= start + closing_steps(self));
    }
}

} // verus!

verus! {

/// Whether `step` hands over what `options` hold for that kind of step.
pub open spec fn step_agrees<'a, K>(options: &'a ImportOptions<K>, step: ImportStep<'a, K>) -> bool {
    match step {
        ImportStep::Filename(name) => options.filename == Some(*name),
        ImportStep::Pkcs12 => options.pkcs12,
        ImportStep::Passphrase(text) => options.passphrase == Some(Passphrase::Text(*text)),
        ImportStep::PassphraseBytes(bytes) => options.passphrase == Some(Passphrase::Bytes(*bytes)),
        ImportStep::SecurePassphrase(on) => on == options.secure_passphrase,
        ImportStep::NoAccessControl(on) => on == options.no_access_control,
        ImportStep::AlertTitle(title) => options.alert_title == Some(*title),
        ImportStep::AlertPrompt(prompt) => options.alert_prompt == Some(*prompt),
        ImportStep::Keychain(keychain) => options.keychain == Some(*keychain),
    }
}

/// Every step of `steps` hands over what `options` hold.
pub open spec fn all_agree<'a, K>(options: &'a ImportOptions<K>, steps: Seq<ImportStep<'a, K>>) -> bool {
    forall|i: int| 0 <= i < steps.len() ==> step_agrees(options, #[trigger] steps[i])
}

/// Some step of `steps` satisfies `wanted`.
pub open spec fn some_step<'a, K>(steps: Seq<ImportStep<'a, K>>, wanted: spec_fn(ImportStep<'a, K>) -> bool) -> bool {
    exists|i: int| 0 <= i < steps.len() && wanted(#[trigger] steps[i])
}

proof fn lemma_agree_concat<'a, K>(options: &'a ImportOptions<K>, x: Seq<ImportStep<'a, K>>, y: Seq<ImportStep<'a, K>>)
    requires
        all_agree(options, x),
        all_agree(options, y),
    ensures
        all_agree(options, x + y),
{
    assert forall|i: int| 0 <= i < (x + y).len() implies step_agrees(options, #[trigger] (x + y)[i]) by {
        if i < x.len() {
            assert((x + y)[i] == x[i]);
        } else {
            assert((x + y)[i] == y[i - x.len()]);
        }
    }
}

proof fn lemma_some_concat<'a, K>(
    x: Seq<ImportStep<'a, K>>,
    y: Seq<ImportStep<'a, K>>,
    wanted: spec_fn(ImportStep<'a, K>) -> bool,
)
    ensures
        some_step(x, wanted) ==> some_step(x + y, wanted),
        some_step(y, wanted) ==> some_step(x + y, wanted),
{
    if some_step(x, wanted) {
        let i = choose|i: int| 0 <= i < x.len() && wanted(#[trigger] x[i]);
        assert((x + y)[i] == x[i]);
    }
    if some_step(y, wanted) {
        let i = choose|i: int| 0 <= i < y.len() && wanted(#[trigger] y[i]);
        assert((x + y)[x.len() + i] == y[i]);
    }
}

proof fn lemma_some_single<'a, K>(step: ImportStep<'a, K>, wanted: spec_fn(ImportStep<'a, K>) -> bool)
    requires
        wanted(step),
    ensures
        some_step(seq![step], wanted),
{
    assert(seq![step][0] == step);
}

/// The import hands the native side exactly what the options hold: every
/// step carries the value last set for its option (the secure-passphrase
/// flag its own value, the no-access-control flag its own, the keychain the
/// one given), both flags are always handed over, and each optional setting
/// is handed over whenever it was given, whatever else was set.
#[verifier::rlimit(40)]
pub proof fn law_import_steps_follow_options<K>(options: &ImportOptions<K>)
    ensures
        all_agree(options, import_steps(options)),
        some_step(import_steps(options), |s: ImportStep<K>| s == ImportStep::<K>::SecurePassphrase(options.secure_passphrase)),
        some_step(import_steps(options), |s: ImportStep<K>| s == ImportStep::<K>::NoAccessControl(options.no_access_control)),
        options.filename is Some ==> some_step(import_steps(options), |s: ImportStep<K>| s is Filename),
        options.pkcs12 ==> some_step(import_steps(options), |s: ImportStep<K>| s is Pkcs12),
        options.passphrase is Some ==> some_step(
            import_steps(options),
            |s: ImportStep<K>| s is Passphrase || s is PassphraseBytes,
        ),
        options.alert_title is Some ==> some_step(import_steps(options), |s: ImportStep<K>| s is AlertTitle),
        options.alert_prompt is Some ==> some_step(import_steps(options), |s: ImportStep<K>| s is AlertPrompt),
        options.keychain is Some ==> some_step(import_steps(options), |s: ImportStep<K>| s is Keychain),
{
    let a = filename_step(options);
    let b = pkcs12_step(options);
    let c = passphrase_step(options);
    let d = flag_steps(options);
    let t = match &options.alert_title {
        Some(title) => seq![ImportStep::AlertTitle(title)],
        None => Seq::<ImportStep<'_, K>>::empty(),
    };
    let p = match &options.alert_prompt {
        Some(prompt) => seq![ImportStep::AlertPrompt(prompt)],
        None => Seq::<ImportStep<'_, K>>::empty(),
    };
    let k = match &options.keychain {
        Some(keychain) => seq![ImportStep::Keychain(keychain)],
        None => Seq::<ImportStep<'_, K>>::empty(),
    };
    assert(closing_steps(options) == t + p + k);
    assert(import_steps(options) =~= a + b + c + d + t + p + k);
    assert(all_agree(options, a));
    assert(all_agree(options, b));
    assert(all_agree(options, c));
    assert(d[0] == ImportStep::<K>::SecurePassphrase(options.secure_passphrase));
    assert(d[1] == ImportStep::<K>::NoAccessControl(options.no_access_control));
    assert(all_agree(options, d));
    assert(all_agree(options, t));
    assert(all_agree(options, p));
    assert(all_agree(options, k));
    lemma_agree_concat(options, a, b);
    lemma_agree_concat(options, a + b, c);
    lemma_agree_concat(options, a + b + c, d);
    lemma_agree_concat(options, a + b + c + d, t);
    lemma_agree_concat(options, a + b + c + d + t, p);
    lemma_agree_concat(options, a + b + c + d + t + p, k);

    let secure = |s: ImportStep<K>| s == ImportStep::<K>::SecurePassphrase(options.secure_passphrase);
    let no_acl = |s: ImportStep<K>| s == ImportStep::<K>::NoAccessControl(options.no_access_control);
    let filename = |s: ImportStep<K>| s is Filename;
    let pkcs12 = |s: ImportStep<K>| s is Pkcs12;
    let passphrase = |s: ImportStep<K>| s is Passphrase || s is PassphraseBytes;
    let title = |s: ImportStep<K>| s is AlertTitle;
    let prompt = |s: ImportStep<K>| s is AlertPrompt;
    let keychain = |s: ImportStep<K>| s is Keychain;
    assert(secure(d[0]));
    assert(no_acl(d[1]));
    assert(some_step(d, secure));
    assert(some_step(d, no_acl));
    if options.filename is Some {
        lemma_some_single(a[0], filename);
        assert(a == seq![a[0]]);
    }
    if options.pkcs12 {
        lemma_some_single(b[0], pkcs12);
        assert(b == seq![b[0]]);
    }
    if options.passphrase is Some {
        lemma_some_single(c[0], passphrase);
        assert(c == seq![c[0]]);
    }
    if options.alert_title is Some {
        lemma_some_single(t[0], title);
        assert(t == seq![t[0]]);
    }
    if options.alert_prompt is Some {
        lemma_some_single(p[0], prompt);
        assert(p == seq![p[0]]);
    }
    if options.keychain is Some {
        lemma_some_single(k[0], keychain);
        assert(k == seq![k[0]]);
    }
    let wanted = seq![secure, no_acl, filename, pkcs12, passphrase, title, prompt, keychain];
    assert forall|j: int| 0 <= j < 8 implies {
        let w = #[trigger] wanted[j];
        &&& (some_step(a, w) || some_step(b, w) || some_step(c, w) || some_step(d, w)
            || some_step(t, w) || some_step(p, w) || some_step(k, w)) ==> some_step(import_steps(options), w)
    } by {
        let w = wanted[j];
        lemma_some_concat(a, b, w);
        lemma_some_concat(a + b, c, w);
        lemma_some_concat(a + b + c, d, w);
        lemma_some_concat(a + b + c + d, t, w);
        lemma_some_concat(a + b + c + d + t, p, w);
        lemma_some_concat(a + b + c + d + t + p, k, w);
    }
    assert(wanted[0] == secure);
    assert(wanted[1] == no_acl);
    assert(wanted[2] == filename);
    assert(wanted[3] == pkcs12);
    assert(wanted[4] == passphrase);
    assert(wanted[5] == title);
    assert(wanted[6] == prompt);
    assert(wanted[7] == keychain);
}

} // verus!
