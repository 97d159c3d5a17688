//! The licenses of the crates the program is built from: for each crate
//! its name, version, license and authors.

use vstd::prelude::*;

verus! {

/// The license of one crate.
#[derive(Debug)]
pub struct LicenseInfo {
    pub name: &'static str,
    pub version: &'static str,
    pub license: &'static str,
    pub authors: Vec<&'static str>,
}

/// How many crates the list names.
pub const LICENSE_COUNT: usize = 289;

/// What an entry holds: name, version, license and authors.
pub open spec fn license_view(l: LicenseInfo) -> (&'static str, &'static str, &'static str, Seq<&'static str>) {
    (l.name, l.version, l.license, l.authors@)
}

/// The entry at position `i` of the list.
pub open spec fn license_entry(i: int) -> (&'static str, &'static str, &'static str, Seq<&'static str>) {
    if i == 0 {
        ("android_system_properties", "0.1.5", "MIT/Apache-2.0", seq!["Nicolas Silva <nical@fastmail.com>"])
    } else if i == 1 {
        ("anyhow", "1.0.102", "MIT OR Apache-2.0", seq!["David Tolnay <dtolnay@gmail.com>"])
    } else if i == 2 {
        ("arc-swap", "1.8.2", "MIT OR Apache-2.0", seq!["Michal 'vorner' Vaner <vorner@vorner.cz>"])
    } else if i == 3 {
        ("ascii", "1.1.0", "Apache-2.0 OR MIT", seq!["Thomas Bahn <thomas@thomas-bahn.net>", "Torbjørn Birch Moltu <t.b.moltu@lyse.net>", "Simon Sapin <simon.sapin@exyr.org>"])
    } else if i == 4 {
        ("atomic-waker", "1.1.2", "Apache-2.0 OR MIT", seq!["Stjepan Glavina <stjepang@gmail.com>", "Contributors to futures-rs"])
    } else if i == 5 {
        ("autocfg", "1.5.0", "Apache-2.0 OR MIT", seq!["Josh Stone <cuviper@gmail.com>"])
    } else if i == 6 {
        ("aws-lc-rs", "1.15.4", "ISC AND (Apache-2.0 OR ISC)", seq!["AWS-LibCrypto"])
    } else if i == 7 {
        ("aws-lc-sys", "0.37.1", "ISC AND (Apache-2.0 OR ISC) AND OpenSSL", seq!["AWS-LC"])
    } else if i == 8 {
        ("base64", "0.22.1", "MIT OR Apache-2.0", seq!["Marshall Pierce <marshall@mpierce.org>"])
    } else if i == 9 {
        ("bitflags", "2.11.0", "MIT OR Apache-2.0", seq!["The Rust Project Developers"])
    } else if i == 10 {
        ("bumpalo", "3.19.1", "MIT OR Apache-2.0", seq!["Nick Fitzgerald <fitzgen@gmail.com>"])
    } else if i == 11 {
        ("byteorder", "1.5.0", "Unlicense OR MIT", seq!["Andrew Gallant <jamslam@gmail.com>"])
    } else if i == 12 {
        ("bytes", "1.11.1", "MIT", seq!["Carl Lerche <me@carllerche.com>", "Sean McArthur <sean@seanmonstar.com>"])
    } else if i == 13 {
        ("camino", "1.2.2", "MIT OR Apache-2.0", seq!["Without Boats <saoirse@without.boats>", "Ashley Williams <ashley666ashley@gmail.com>", "Steve Klabnik <steve@steveklabnik.com>", "Rain <rain@sunshowers.io>"])
    } else if i == 14 {
        ("cargo-platform", "0.1.9", "MIT OR Apache-2.0", seq![])
    } else if i == 15 {
        ("cargo_metadata", "0.19.2", "MIT", seq!["Oliver Schneider <git-spam-no-reply9815368754983@oli-obk.de>"])
    } else if i == 16 {
        ("cc", "1.2.56", "MIT OR Apache-2.0", seq!["Alex Crichton <alex@alexcrichton.com>"])
    } else if i == 17 {
        ("cesu8", "1.1.0", "Apache-2.0/MIT", seq!["Eric Kidd <git@randomhacks.net>"])
    } else if i == 18 {
        ("cfg-if", "1.0.4", "MIT OR Apache-2.0", seq!["Alex Crichton <alex@alexcrichton.com>"])
    } else if i == 19 {
        ("cfg_aliases", "0.2.1", "MIT", seq!["Zicklag <zicklag@katharostech.com>"])
    } else if i == 20 {
        ("chacha20", "0.10.0", "MIT OR Apache-2.0", seq!["RustCrypto Developers"])
    } else if i == 21 {
        ("chrono", "0.4.43", "MIT OR Apache-2.0", seq![])
    } else if i == 22 {
        ("chunked_transfer", "1.5.0", "MIT OR Apache-2.0", seq!["Corey Farwell <coreyf@rwell.org>"])
    } else if i == 23 {
        ("cmake", "0.1.57", "MIT OR Apache-2.0", seq!["Alex Crichton <alex@alexcrichton.com>"])
    } else if i == 24 {
        ("colored", "3.1.1", "MPL-2.0", seq!["Thomas Wickham <mackwic@gmail.com>"])
    } else if i == 25 {
        ("combine", "4.6.7", "MIT", seq!["Markus Westerlind <marwes91@gmail.com>"])
    } else if i == 26 {
        ("core-foundation", "0.9.4", "MIT OR Apache-2.0", seq!["The Servo Project Developers"])
    } else if i == 27 {
        ("core-foundation", "0.10.1", "MIT OR Apache-2.0", seq!["The Servo Project Developers"])
    } else if i == 28 {
        ("core-foundation-sys", "0.8.7", "MIT OR Apache-2.0", seq!["The Servo Project Developers"])
    } else if i == 29 {
        ("cpufeatures", "0.3.0", "MIT OR Apache-2.0", seq!["RustCrypto Developers"])
    } else if i == 30 {
        ("darling", "0.20.11", "MIT", seq!["Ted Driggs <ted.driggs@outlook.com>"])
    } else if i == 31 {
        ("darling_core", "0.20.11", "MIT", seq!["Ted Driggs <ted.driggs@outlook.com>"])
    } else if i == 32 {
        ("darling_macro", "0.20.11", "MIT", seq!["Ted Driggs <ted.driggs@outlook.com>"])
    } else if i == 33 {
        ("derive_builder", "0.20.2", "MIT OR Apache-2.0", seq!["Colin Kiegel <kiegel@gmx.de>", "Pascal Hertleif <killercup@gmail.com>", "Jan-Erik Rediger <janerik@fnordig.de>", "Ted Driggs <ted.driggs@outlook.com>"])
    } else if i == 34 {
        ("derive_builder_core", "0.20.2", "MIT OR Apache-2.0", seq!["Colin Kiegel <kiegel@gmx.de>", "Pascal Hertleif <killercup@gmail.com>", "Jan-Erik Rediger <janerik@fnordig.de>", "Ted Driggs <ted.driggs@outlook.com>"])
    } else if i == 35 {
        ("derive_builder_macro", "0.20.2", "MIT OR Apache-2.0", seq!["Colin Kiegel <kiegel@gmx.de>", "Pascal Hertleif <killercup@gmail.com>", "Jan-Erik Rediger <janerik@fnordig.de>", "Ted Driggs <ted.driggs@outlook.com>"])
    } else if i == 36 {
        ("derive_more", "2.1.1", "MIT", seq!["Jelte Fennema <github-tech@jeltef.nl>"])
    } else if i == 37 {
        ("derive_more-impl", "2.1.1", "MIT", seq!["Jelte Fennema <github-tech@jeltef.nl>"])
    } else if i == 38 {
        ("destructure_traitobject", "0.2.0", "MIT/Apache-2.0", seq!["Jonathan Reem <jonathan.reem@gmail.com>", "Steven Fackler <sfackler@gmail.com>", "Alexander Regueiro <alexreg@me.com>", "Philip Peterson <philip.c.peterson@gmail.com>"])
    } else if i == 39 {
        ("displaydoc", "0.2.5", "MIT OR Apache-2.0", seq!["Jane Lusby <jlusby@yaah.dev>"])
    } else if i == 40 {
        ("dunce", "1.0.5", "CC0-1.0 OR MIT-0 OR Apache-2.0", seq!["Kornel <kornel@geekhood.net>"])
    } else if i == 41 {
        ("either", "1.15.0", "MIT OR Apache-2.0", seq!["bluss"])
    } else if i == 42 {
        ("encoding_rs", "0.8.35", "(Apache-2.0 OR MIT) AND BSD-3-Clause", seq!["Henri Sivonen <hsivonen@hsivonen.fi>"])
    } else if i == 43 {
        ("equivalent", "1.0.2", "Apache-2.0 OR MIT", seq![])
    } else if i == 44 {
        ("errno", "0.3.14", "MIT OR Apache-2.0", seq!["Chris Wong <lambda.fairy@gmail.com>", "Dan Gohman <dev@sunfishcode.online>"])
    } else if i == 45 {
        ("fastrand", "2.3.0", "Apache-2.0 OR MIT", seq!["Stjepan Glavina <stjepang@gmail.com>"])
    } else if i == 46 {
        ("find-msvc-tools", "0.1.9", "MIT OR Apache-2.0", seq![])
    } else if i == 47 {
        ("fnv", "1.0.7", "Apache-2.0 / MIT", seq!["Alex Crichton <alex@alexcrichton.com>"])
    } else if i == 48 {
        ("foldhash", "0.1.5", "Zlib", seq!["Orson Peters <orsonpeters@gmail.com>"])
    } else if i == 49 {
        ("foreign-types", "0.3.2", "MIT/Apache-2.0", seq!["Steven Fackler <sfackler@gmail.com>"])
    } else if i == 50 {
        ("foreign-types-shared", "0.1.1", "MIT/Apache-2.0", seq!["Steven Fackler <sfackler@gmail.com>"])
    } else if i == 51 {
        ("form_urlencoded", "1.2.2", "MIT OR Apache-2.0", seq!["The rust-url developers"])
    } else if i == 52 {
        ("fs_extra", "1.3.0", "MIT", seq!["Denis Kurilenko <webdesus@gmail.com>"])
    } else if i == 53 {
        ("futures-channel", "0.3.32", "MIT OR Apache-2.0", seq![])
    } else if i == 54 {
        ("futures-core", "0.3.32", "MIT OR Apache-2.0", seq![])
    } else if i == 55 {
        ("futures-io", "0.3.32", "MIT OR Apache-2.0", seq![])
    } else if i == 56 {
        ("futures-sink", "0.3.32", "MIT OR Apache-2.0", seq![])
    } else if i == 57 {
        ("futures-task", "0.3.32", "MIT OR Apache-2.0", seq![])
    } else if i == 58 {
        ("futures-util", "0.3.32", "MIT OR Apache-2.0", seq![])
    } else if i == 59 {
        ("getrandom", "0.2.17", "MIT OR Apache-2.0", seq!["The Rand Project Developers"])
    } else if i == 60 {
        ("getrandom", "0.3.4", "MIT OR Apache-2.0", seq!["The Rand Project Developers"])
    } else if i == 61 {
        ("getrandom", "0.4.1", "MIT OR Apache-2.0", seq!["The Rand Project Developers"])
    } else if i == 62 {
        ("getset", "0.1.6", "MIT", seq!["Ana Hobden <ana@hoverbear.org>", "John Baublitz <john.m.baublitz@gmail.com"])
    } else if i == 63 {
        ("h2", "0.4.13", "MIT", seq!["Carl Lerche <me@carllerche.com>", "Sean McArthur <sean@seanmonstar.com>"])
    } else if i == 64 {
        ("hashbrown", "0.15.5", "MIT OR Apache-2.0", seq!["Amanieu d'Antras <amanieu@gmail.com>"])
    } else if i == 65 {
        ("hashbrown", "0.16.1", "MIT OR Apache-2.0", seq!["Amanieu d'Antras <amanieu@gmail.com>"])
    } else if i == 66 {
        ("heck", "0.5.0", "MIT OR Apache-2.0", seq![])
    } else if i == 67 {
        ("http", "1.4.0", "MIT OR Apache-2.0", seq!["Alex Crichton <alex@alexcrichton.com>", "Carl Lerche <me@carllerche.com>", "Sean McArthur <sean@seanmonstar.com>"])
    } else if i == 68 {
        ("http-body", "1.0.1", "MIT", seq!["Carl Lerche <me@carllerche.com>", "Lucio Franco <luciofranco14@gmail.com>", "Sean McArthur <sean@seanmonstar.com>"])
    } else if i == 69 {
        ("http-body-util", "0.1.3", "MIT", seq!["Carl Lerche <me@carllerche.com>", "Lucio Franco <luciofranco14@gmail.com>", "Sean McArthur <sean@seanmonstar.com>"])
    } else if i == 70 {
        ("httparse", "1.10.1", "MIT OR Apache-2.0", seq!["Sean McArthur <sean@seanmonstar.com>"])
    } else if i == 71 {
        ("httpdate", "1.0.3", "MIT OR Apache-2.0", seq!["Pyfisch <pyfisch@posteo.org>"])
    } else if i == 72 {
        ("humantime", "2.3.0", "MIT OR Apache-2.0", seq![])
    } else if i == 73 {
        ("hyper", "1.8.1", "MIT", seq!["Sean McArthur <sean@seanmonstar.com>"])
    } else if i == 74 {
        ("hyper-rustls", "0.27.7", "Apache-2.0 OR ISC OR MIT", seq![])
    } else if i == 75 {
        ("hyper-tls", "0.6.0", "MIT/Apache-2.0", seq!["Sean McArthur <sean@seanmonstar.com>"])
    } else if i == 76 {
        ("hyper-util", "0.1.20", "MIT", seq!["Sean McArthur <sean@seanmonstar.com>"])
    } else if i == 77 {
        ("iana-time-zone", "0.1.65", "MIT OR Apache-2.0", seq!["Andrew Straw <strawman@astraw.com>", "René Kijewski <rene.kijewski@fu-berlin.de>", "Ryan Lopopolo <rjl@hyperbo.la>"])
    } else if i == 78 {
        ("iana-time-zone-haiku", "0.1.2", "MIT OR Apache-2.0", seq!["René Kijewski <crates.io@k6i.de>"])
    } else if i == 79 {
        ("icu_collections", "2.1.1", "Unicode-3.0", seq!["The ICU4X Project Developers"])
    } else if i == 80 {
        ("icu_locale_core", "2.1.1", "Unicode-3.0", seq!["The ICU4X Project Developers"])
    } else if i == 81 {
        ("icu_normalizer", "2.1.1", "Unicode-3.0", seq!["The ICU4X Project Developers"])
    } else if i == 82 {
        ("icu_normalizer_data", "2.1.1", "Unicode-3.0", seq!["The ICU4X Project Developers"])
    } else if i == 83 {
        ("icu_properties", "2.1.2", "Unicode-3.0", seq!["The ICU4X Project Developers"])
    } else if i == 84 {
        ("icu_properties_data", "2.1.2", "Unicode-3.0", seq!["The ICU4X Project Developers"])
    } else if i == 85 {
        ("icu_provider", "2.1.1", "Unicode-3.0", seq!["The ICU4X Project Developers"])
    } else if i == 86 {
        ("id-arena", "2.3.0", "MIT/Apache-2.0", seq!["Nick Fitzgerald <fitzgen@gmail.com>", "Aleksey Kladov <aleksey.kladov@gmail.com>"])
    } else if i == 87 {
        ("ident_case", "1.0.1", "MIT/Apache-2.0", seq!["Ted Driggs <ted.driggs@outlook.com>"])
    } else if i == 88 {
        ("idna", "1.1.0", "MIT OR Apache-2.0", seq!["The rust-url developers"])
    } else if i == 89 {
        ("idna_adapter", "1.2.1", "Apache-2.0 OR MIT", seq!["The rust-url developers"])
    } else if i == 90 {
        ("indexmap", "2.13.0", "Apache-2.0 OR MIT", seq![])
    } else if i == 91 {
        ("ipnet", "2.11.0", "MIT OR Apache-2.0", seq!["Kris Price <kris@krisprice.nz>"])
    } else if i == 92 {
        ("iri-string", "0.7.10", "MIT OR Apache-2.0", seq!["YOSHIOKA Takuma <nop_thread@nops.red>"])
    } else if i == 93 {
        ("itoa", "1.0.17", "MIT OR Apache-2.0", seq!["David Tolnay <dtolnay@gmail.com>"])
    } else if i == 94 {
        ("jni", "0.21.1", "MIT/Apache-2.0", seq!["Josh Chase <josh@prevoty.com>"])
    } else if i == 95 {
        ("jni-sys", "0.3.0", "MIT/Apache-2.0", seq!["Steven Fackler <sfackler@gmail.com>"])
    } else if i == 96 {
        ("jobserver", "0.1.34", "MIT OR Apache-2.0", seq!["Alex Crichton <alex@alexcrichton.com>"])
    } else if i == 97 {
        ("js-sys", "0.3.85", "MIT OR Apache-2.0", seq!["The wasm-bindgen Developers"])
    } else if i == 98 {
        ("leb128fmt", "0.1.0", "MIT OR Apache-2.0", seq!["Bryant Luk <code@bryantluk.com>"])
    } else if i == 99 {
        ("libc", "0.2.182", "MIT OR Apache-2.0", seq!["The Rust Project Developers"])
    } else if i == 100 {
        ("linux-raw-sys", "0.11.0", "Apache-2.0 WITH LLVM-exception OR Apache-2.0 OR MIT", seq!["Dan Gohman <dev@sunfishcode.online>"])
    } else if i == 101 {
        ("litemap", "0.8.1", "Unicode-3.0", seq!["The ICU4X Project Developers"])
    } else if i == 102 {
        ("local-ip-address", "0.6.10", "MIT OR Apache-2.0", seq!["Leo Borai <estebanborai@gmail.com>"])
    } else if i == 103 {
        ("lock_api", "0.4.14", "MIT OR Apache-2.0", seq!["Amanieu d'Antras <amanieu@gmail.com>"])
    } else if i == 104 {
        ("log", "0.4.29", "MIT OR Apache-2.0", seq!["The Rust Project Developers"])
    } else if i == 105 {
        ("log-mdc", "0.1.0", "MIT/Apache-2.0", seq!["Steven Fackler <sfackler@gmail.com>"])
    } else if i == 106 {
        ("log4rs", "1.4.0", "MIT OR Apache-2.0", seq!["Steven Fackler <sfackler@gmail.com>", "Evan Simmons <esims89@gmail.com>"])
    } else if i == 107 {
        ("lru-slab", "0.1.2", "MIT OR Apache-2.0 OR Zlib", seq!["Benjamin Saunders <ben.e.saunders@gmail.com>"])
    } else if i == 108 {
        ("memchr", "2.8.0", "Unlicense OR MIT", seq!["Andrew Gallant <jamslam@gmail.com>", "bluss"])
    } else if i == 109 {
        ("mime", "0.3.17", "MIT OR Apache-2.0", seq!["Sean McArthur <sean@seanmonstar.com>"])
    } else if i == 110 {
        ("mio", "1.1.1", "MIT", seq!["Carl Lerche <me@carllerche.com>", "Thomas de Zeeuw <thomasdezeeuw@gmail.com>", "Tokio Contributors <team@tokio.rs>"])
    } else if i == 111 {
        ("mock_instant", "0.6.0", "0BSD", seq!["museun <museun@outlook.com>"])
    } else if i == 112 {
        ("native-tls", "0.2.16", "MIT OR Apache-2.0", seq!["Steven Fackler <sfackler@gmail.com>"])
    } else if i == 113 {
        ("neli", "0.7.4", "BSD-3-Clause", seq!["John Baublitz <john.m.baublitz@gmail.com>"])
    } else if i == 114 {
        ("neli-proc-macros", "0.2.2", "BSD-3-Clause", seq!["John Baublitz <john.m.baublitz@gmail.com>"])
    } else if i == 115 {
        ("num-traits", "0.2.19", "MIT OR Apache-2.0", seq!["The Rust Project Developers"])
    } else if i == 116 {
        ("once_cell", "1.21.3", "MIT OR Apache-2.0", seq!["Aleksey Kladov <aleksey.kladov@gmail.com>"])
    } else if i == 117 {
        ("openssl", "0.10.75", "Apache-2.0", seq!["Steven Fackler <sfackler@gmail.com>"])
    } else if i == 118 {
        ("openssl-macros", "0.1.1", "MIT/Apache-2.0", seq![])
    } else if i == 119 {
        ("openssl-probe", "0.2.1", "MIT OR Apache-2.0", seq!["Alex Crichton <alex@alexcrichton.com>"])
    } else if i == 120 {
        ("openssl-sys", "0.9.111", "MIT", seq!["Alex Crichton <alex@alexcrichton.com>", "Steven Fackler <sfackler@gmail.com>"])
    } else if i == 121 {
        ("ordered-float", "2.10.1", "MIT", seq!["Jonathan Reem <jonathan.reem@gmail.com>", "Matt Brubeck <mbrubeck@limpet.net>"])
    } else if i == 122 {
        ("parking_lot", "0.12.5", "MIT OR Apache-2.0", seq!["Amanieu d'Antras <amanieu@gmail.com>"])
    } else if i == 123 {
        ("parking_lot_core", "0.9.12", "MIT OR Apache-2.0", seq!["Amanieu d'Antras <amanieu@gmail.com>"])
    } else if i == 124 {
        ("percent-encoding", "2.3.2", "MIT OR Apache-2.0", seq!["The rust-url developers"])
    } else if i == 125 {
        ("pin-project-lite", "0.2.16", "Apache-2.0 OR MIT", seq![])
    } else if i == 126 {
        ("pin-utils", "0.1.0", "MIT OR Apache-2.0", seq!["Josef Brandl <mail@josefbrandl.de>"])
    } else if i == 127 {
        ("pkg-config", "0.3.32", "MIT OR Apache-2.0", seq!["Alex Crichton <alex@alexcrichton.com>"])
    } else if i == 128 {
        ("positive_tool_rs", "0.7.0", "AGPL-3.0-only", seq![])
    } else if i == 129 {
        ("potential_utf", "0.1.4", "Unicode-3.0", seq!["The ICU4X Project Developers"])
    } else if i == 130 {
        ("ppv-lite86", "0.2.21", "MIT OR Apache-2.0", seq!["The CryptoCorrosion Contributors"])
    } else if i == 131 {
        ("prettyplease", "0.2.37", "MIT OR Apache-2.0", seq!["David Tolnay <dtolnay@gmail.com>"])
    } else if i == 132 {
        ("proc-macro-error-attr2", "2.0.0", "MIT OR Apache-2.0", seq!["CreepySkeleton <creepy-skeleton@yandex.ru>", "GnomedDev <david2005thomas@gmail.com>"])
    } else if i == 133 {
        ("proc-macro-error2", "2.0.1", "MIT OR Apache-2.0", seq!["CreepySkeleton <creepy-skeleton@yandex.ru>", "GnomedDev <david2005thomas@gmail.com>"])
    } else if i == 134 {
        ("proc-macro2", "1.0.106", "MIT OR Apache-2.0", seq!["David Tolnay <dtolnay@gmail.com>", "Alex Crichton <alex@alexcrichton.com>"])
    } else if i == 135 {
        ("quinn", "0.11.9", "MIT OR Apache-2.0", seq![])
    } else if i == 136 {
        ("quinn-proto", "0.11.13", "MIT OR Apache-2.0", seq![])
    } else if i == 137 {
        ("quinn-udp", "0.5.14", "MIT OR Apache-2.0", seq![])
    } else if i == 138 {
        ("quote", "1.0.44", "MIT OR Apache-2.0", seq!["David Tolnay <dtolnay@gmail.com>"])
    } else if i == 139 {
        ("r-efi", "5.3.0", "MIT OR Apache-2.0 OR LGPL-2.1-or-later", seq![])
    } else if i == 140 {
        ("rand", "0.9.2", "MIT OR Apache-2.0", seq!["The Rand Project Developers", "The Rust Project Developers"])
    } else if i == 141 {
        ("rand", "0.10.0", "MIT OR Apache-2.0", seq!["The Rand Project Developers", "The Rust Project Developers"])
    } else if i == 142 {
        ("rand_chacha", "0.9.0", "MIT OR Apache-2.0", seq!["The Rand Project Developers", "The Rust Project Developers", "The CryptoCorrosion Contributors"])
    } else if i == 143 {
        ("rand_core", "0.9.5", "MIT OR Apache-2.0", seq!["The Rand Project Developers", "The Rust Project Developers"])
    } else if i == 144 {
        ("rand_core", "0.10.0", "MIT OR Apache-2.0", seq!["The Rand Project Developers"])
    } else if i == 145 {
        ("redox_syscall", "0.5.18", "MIT", seq!["Jeremy Soller <jackpot51@gmail.com>"])
    } else if i == 146 {
        ("reqwest", "0.13.2", "MIT OR Apache-2.0", seq!["Sean McArthur <sean@seanmonstar.com>"])
    } else if i == 147 {
        ("ring", "0.17.14", "Apache-2.0 AND ISC", seq![])
    } else if i == 148 {
        ("rustc-hash", "2.1.1", "Apache-2.0 OR MIT", seq!["The Rust Project Developers"])
    } else if i == 149 {
        ("rustc_version", "0.4.1", "MIT OR Apache-2.0", seq![])
    } else if i == 150 {
        ("rustix", "1.1.3", "Apache-2.0 WITH LLVM-exception OR Apache-2.0 OR MIT", seq!["Dan Gohman <dev@sunfishcode.online>", "Jakub Konka <kubkon@jakubkonka.com>"])
    } else if i == 151 {
        ("rustls", "0.23.36", "Apache-2.0 OR ISC OR MIT", seq![])
    } else if i == 152 {
        ("rustls-native-certs", "0.8.3", "Apache-2.0 OR ISC OR MIT", seq![])
    } else if i == 153 {
        ("rustls-pki-types", "1.14.0", "MIT OR Apache-2.0", seq![])
    } else if i == 154 {
        ("rustls-platform-verifier", "0.6.2", "MIT OR Apache-2.0", seq![])
    } else if i == 155 {
        ("rustls-platform-verifier-android", "0.1.1", "MIT OR Apache-2.0", seq![])
    } else if i == 156 {
        ("rustls-webpki", "0.103.9", "ISC", seq![])
    } else if i == 157 {
        ("rustversion", "1.0.22", "MIT OR Apache-2.0", seq!["David Tolnay <dtolnay@gmail.com>"])
    } else if i == 158 {
        ("ryu", "1.0.23", "Apache-2.0 OR BSL-1.0", seq!["David Tolnay <dtolnay@gmail.com>"])
    } else if i == 159 {
        ("same-file", "1.0.6", "Unlicense/MIT", seq!["Andrew Gallant <jamslam@gmail.com>"])
    } else if i == 160 {
        ("schannel", "0.1.28", "MIT", seq!["Steven Fackler <sfackler@gmail.com>", "Steffen Butzer <steffen.butzer@outlook.com>"])
    } else if i == 161 {
        ("scopeguard", "1.2.0", "MIT OR Apache-2.0", seq!["bluss"])
    } else if i == 162 {
        ("security-framework", "3.6.0", "MIT OR Apache-2.0", seq!["Steven Fackler <sfackler@gmail.com>", "Kornel <kornel@geekhood.net>"])
    } else if i == 163 {
        ("security-framework-sys", "2.16.0", "MIT OR Apache-2.0", seq!["Steven Fackler <sfackler@gmail.com>", "Kornel <kornel@geekhood.net>"])
    } else if i == 164 {
        ("semver", "1.0.27", "MIT OR Apache-2.0", seq!["David Tolnay <dtolnay@gmail.com>"])
    } else if i == 165 {
        ("serde", "1.0.228", "MIT OR Apache-2.0", seq!["Erick Tryzelaar <erick.tryzelaar@gmail.com>", "David Tolnay <dtolnay@gmail.com>"])
    } else if i == 166 {
        ("serde-value", "0.7.0", "MIT", seq!["arcnmx"])
    } else if i == 167 {
        ("serde_core", "1.0.228", "MIT OR Apache-2.0", seq!["Erick Tryzelaar <erick.tryzelaar@gmail.com>", "David Tolnay <dtolnay@gmail.com>"])
    } else if i == 168 {
        ("serde_derive", "1.0.228", "MIT OR Apache-2.0", seq!["Erick Tryzelaar <erick.tryzelaar@gmail.com>", "David Tolnay <dtolnay@gmail.com>"])
    } else if i == 169 {
        ("serde_json", "1.0.149", "MIT OR Apache-2.0", seq!["Erick Tryzelaar <erick.tryzelaar@gmail.com>", "David Tolnay <dtolnay@gmail.com>"])
    } else if i == 170 {
        ("serde_yaml", "0.9.34+deprecated", "MIT OR Apache-2.0", seq!["David Tolnay <dtolnay@gmail.com>"])
    } else if i == 171 {
        ("shlex", "1.3.0", "MIT OR Apache-2.0", seq!["comex <comexk@gmail.com>", "Fenhl <fenhl@fenhl.net>", "Adrian Taylor <adetaylor@chromium.org>", "Alex Touchet <alextouchet@outlook.com>", "Daniel Parks <dp+git@oxidized.org>", "Garrett Berg <googberg@gmail.com>"])
    } else if i == 172 {
        ("slab", "0.4.12", "MIT", seq!["Carl Lerche <me@carllerche.com>"])
    } else if i == 173 {
        ("smallvec", "1.15.1", "MIT OR Apache-2.0", seq!["The Servo Project Developers"])
    } else if i == 174 {
        ("socket2", "0.6.2", "MIT OR Apache-2.0", seq!["Alex Crichton <alex@alexcrichton.com>", "Thomas de Zeeuw <thomasdezeeuw@gmail.com>"])
    } else if i == 175 {
        ("stable_deref_trait", "1.2.1", "MIT OR Apache-2.0", seq!["Robert Grosse <n210241048576@gmail.com>"])
    } else if i == 176 {
        ("strsim", "0.11.1", "MIT", seq!["Danny Guo <danny@dannyguo.com>", "maxbachmann <oss@maxbachmann.de>"])
    } else if i == 177 {
        ("subtle", "2.6.1", "BSD-3-Clause", seq!["Isis Lovecruft <isis@patternsinthevoid.net>", "Henry de Valence <hdevalence@hdevalence.ca>"])
    } else if i == 178 {
        ("syn", "2.0.116", "MIT OR Apache-2.0", seq!["David Tolnay <dtolnay@gmail.com>"])
    } else if i == 179 {
        ("sync_wrapper", "1.0.2", "Apache-2.0", seq!["Actyx AG <developer@actyx.io>"])
    } else if i == 180 {
        ("synstructure", "0.13.2", "MIT", seq!["Nika Layzell <nika@thelayzells.com>"])
    } else if i == 181 {
        ("system-configuration", "0.7.0", "MIT OR Apache-2.0", seq!["Mullvad VPN"])
    } else if i == 182 {
        ("system-configuration-sys", "0.6.0", "MIT OR Apache-2.0", seq!["Mullvad VPN"])
    } else if i == 183 {
        ("tempfile", "3.25.0", "MIT OR Apache-2.0", seq!["Steven Allen <steven@stebalien.com>", "The Rust Project Developers", "Ashley Mannix <ashleymannix@live.com.au>", "Jason White <me@jasonwhite.io>"])
    } else if i == 184 {
        ("thiserror", "1.0.69", "MIT OR Apache-2.0", seq!["David Tolnay <dtolnay@gmail.com>"])
    } else if i == 185 {
        ("thiserror", "2.0.18", "MIT OR Apache-2.0", seq!["David Tolnay <dtolnay@gmail.com>"])
    } else if i == 186 {
        ("thiserror-impl", "1.0.69", "MIT OR Apache-2.0", seq!["David Tolnay <dtolnay@gmail.com>"])
    } else if i == 187 {
        ("thiserror-impl", "2.0.18", "MIT OR Apache-2.0", seq!["David Tolnay <dtolnay@gmail.com>"])
    } else if i == 188 {
        ("thread-id", "5.1.0", "MIT OR Apache-2.0", seq!["Ruud van Asseldonk <dev@veniogames.com>"])
    } else if i == 189 {
        ("tiny_http", "0.12.0", "MIT OR Apache-2.0", seq!["pierre.krieger1708@gmail.com", "Corey Farwell <coreyf@rwell.org>"])
    } else if i == 190 {
        ("tinystr", "0.8.2", "Unicode-3.0", seq!["The ICU4X Project Developers"])
    } else if i == 191 {
        ("tinyvec", "1.10.0", "Zlib OR Apache-2.0 OR MIT", seq!["Lokathor <zefria@gmail.com>"])
    } else if i == 192 {
        ("tinyvec_macros", "0.1.1", "MIT OR Apache-2.0 OR Zlib", seq!["Soveu <marx.tomasz@gmail.com>"])
    } else if i == 193 {
        ("tokio", "1.49.0", "MIT", seq!["Tokio Contributors <team@tokio.rs>"])
    } else if i == 194 {
        ("tokio-native-tls", "0.3.1", "MIT", seq!["Tokio Contributors <team@tokio.rs>"])
    } else if i == 195 {
        ("tokio-rustls", "0.26.4", "MIT OR Apache-2.0", seq![])
    } else if i == 196 {
        ("tokio-util", "0.7.18", "MIT", seq!["Tokio Contributors <team@tokio.rs>"])
    } else if i == 197 {
        ("tower", "0.5.3", "MIT", seq!["Tower Maintainers <team@tower-rs.com>"])
    } else if i == 198 {
        ("tower-http", "0.6.8", "MIT", seq!["Tower Maintainers <team@tower-rs.com>"])
    } else if i == 199 {
        ("tower-layer", "0.3.3", "MIT", seq!["Tower Maintainers <team@tower-rs.com>"])
    } else if i == 200 {
        ("tower-service", "0.3.3", "MIT", seq!["Tower Maintainers <team@tower-rs.com>"])
    } else if i == 201 {
        ("tracing", "0.1.44", "MIT", seq!["Eliza Weisman <eliza@buoyant.io>", "Tokio Contributors <team@tokio.rs>"])
    } else if i == 202 {
        ("tracing-core", "0.1.36", "MIT", seq!["Tokio Contributors <team@tokio.rs>"])
    } else if i == 203 {
        ("try-lock", "0.2.5", "MIT", seq!["Sean McArthur <sean@seanmonstar.com>"])
    } else if i == 204 {
        ("typemap-ors", "1.0.0", "MIT", seq!["Jonathan Reem <jonathan.reem@gmail.com>", "Anton Whalley anton@venshare.com"])
    } else if i == 205 {
        ("unicode-ident", "1.0.24", "(MIT OR Apache-2.0) AND Unicode-3.0", seq!["David Tolnay <dtolnay@gmail.com>"])
    } else if i == 206 {
        ("unicode-segmentation", "1.12.0", "MIT OR Apache-2.0", seq!["kwantam <kwantam@gmail.com>", "Manish Goregaokar <manishsmail@gmail.com>"])
    } else if i == 207 {
        ("unicode-xid", "0.2.6", "MIT OR Apache-2.0", seq!["erick.tryzelaar <erick.tryzelaar@gmail.com>", "kwantam <kwantam@gmail.com>", "Manish Goregaokar <manishsmail@gmail.com>"])
    } else if i == 208 {
        ("unsafe-any-ors", "1.0.0", "MIT", seq!["Jonathan Reem <jonathan.reem@gmail.com>", "anton whalley anton@venshare.com"])
    } else if i == 209 {
        ("unsafe-libyaml", "0.2.11", "MIT", seq!["David Tolnay <dtolnay@gmail.com>"])
    } else if i == 210 {
        ("untrusted", "0.9.0", "ISC", seq!["Brian Smith <brian@briansmith.org>"])
    } else if i == 211 {
        ("url", "2.5.8", "MIT OR Apache-2.0", seq!["The rust-url developers"])
    } else if i == 212 {
        ("utf8_iter", "1.0.4", "Apache-2.0 OR MIT", seq!["Henri Sivonen <hsivonen@hsivonen.fi>"])
    } else if i == 213 {
        ("vcpkg", "0.2.15", "MIT/Apache-2.0", seq!["Jim McGrath <jimmc2@gmail.com>"])
    } else if i == 214 {
        ("walkdir", "2.5.0", "Unlicense/MIT", seq!["Andrew Gallant <jamslam@gmail.com>"])
    } else if i == 215 {
        ("want", "0.3.1", "MIT", seq!["Sean McArthur <sean@seanmonstar.com>"])
    } else if i == 216 {
        ("wasi", "0.11.1+wasi-snapshot-preview1", "Apache-2.0 WITH LLVM-exception OR Apache-2.0 OR MIT", seq!["The Cranelift Project Developers"])
    } else if i == 217 {
        ("wasip2", "1.0.2+wasi-0.2.9", "Apache-2.0 WITH LLVM-exception OR Apache-2.0 OR MIT", seq![])
    } else if i == 218 {
        ("wasip3", "0.4.0+wasi-0.3.0-rc-2026-01-06", "Apache-2.0 WITH LLVM-exception OR Apache-2.0 OR MIT", seq![])
    } else if i == 219 {
        ("wasm-bindgen", "0.2.108", "MIT OR Apache-2.0", seq!["The wasm-bindgen Developers"])
    } else if i == 220 {
        ("wasm-bindgen-futures", "0.4.58", "MIT OR Apache-2.0", seq!["The wasm-bindgen Developers"])
    } else if i == 221 {
        ("wasm-bindgen-macro", "0.2.108", "MIT OR Apache-2.0", seq!["The wasm-bindgen Developers"])
    } else if i == 222 {
        ("wasm-bindgen-macro-support", "0.2.108", "MIT OR Apache-2.0", seq!["The wasm-bindgen Developers"])
    } else if i == 223 {
        ("wasm-bindgen-shared", "0.2.108", "MIT OR Apache-2.0", seq!["The wasm-bindgen Developers"])
    } else if i == 224 {
        ("wasm-encoder", "0.244.0", "Apache-2.0 WITH LLVM-exception OR Apache-2.0 OR MIT", seq!["Nick Fitzgerald <fitzgen@gmail.com>"])
    } else if i == 225 {
        ("wasm-metadata", "0.244.0", "Apache-2.0 WITH LLVM-exception OR Apache-2.0 OR MIT", seq![])
    } else if i == 226 {
        ("wasmparser", "0.244.0", "Apache-2.0 WITH LLVM-exception OR Apache-2.0 OR MIT", seq!["Yury Delendik <ydelendik@mozilla.com>"])
    } else if i == 227 {
        ("web-sys", "0.3.85", "MIT OR Apache-2.0", seq!["The wasm-bindgen Developers"])
    } else if i == 228 {
        ("web-time", "1.1.0", "MIT OR Apache-2.0", seq![])
    } else if i == 229 {
        ("webpki-root-certs", "1.0.6", "CDLA-Permissive-2.0", seq![])
    } else if i == 230 {
        ("winapi", "0.3.9", "MIT/Apache-2.0", seq!["Peter Atashian <retep998@gmail.com>"])
    } else if i == 231 {
        ("winapi-i686-pc-windows-gnu", "0.4.0", "MIT/Apache-2.0", seq!["Peter Atashian <retep998@gmail.com>"])
    } else if i == 232 {
        ("winapi-util", "0.1.11", "Unlicense OR MIT", seq!["Andrew Gallant <jamslam@gmail.com>"])
    } else if i == 233 {
        ("winapi-x86_64-pc-windows-gnu", "0.4.0", "MIT/Apache-2.0", seq!["Peter Atashian <retep998@gmail.com>"])
    } else if i == 234 {
        ("windows-core", "0.62.2", "MIT OR Apache-2.0", seq![])
    } else if i == 235 {
        ("windows-implement", "0.60.2", "MIT OR Apache-2.0", seq![])
    } else if i == 236 {
        ("windows-interface", "0.59.3", "MIT OR Apache-2.0", seq![])
    } else if i == 237 {
        ("windows-link", "0.2.1", "MIT OR Apache-2.0", seq![])
    } else if i == 238 {
        ("windows-registry", "0.6.1", "MIT OR Apache-2.0", seq![])
    } else if i == 239 {
        ("windows-result", "0.4.1", "MIT OR Apache-2.0", seq![])
    } else if i == 240 {
        ("windows-strings", "0.5.1", "MIT OR Apache-2.0", seq![])
    } else if i == 241 {
        ("windows-sys", "0.45.0", "MIT OR Apache-2.0", seq!["Microsoft"])
    } else if i == 242 {
        ("windows-sys", "0.52.0", "MIT OR Apache-2.0", seq!["Microsoft"])
    } else if i == 243 {
        ("windows-sys", "0.60.2", "MIT OR Apache-2.0", seq!["Microsoft"])
    } else if i == 244 {
        ("windows-sys", "0.61.2", "MIT OR Apache-2.0", seq![])
    } else if i == 245 {
        ("windows-targets", "0.42.2", "MIT OR Apache-2.0", seq!["Microsoft"])
    } else if i == 246 {
        ("windows-targets", "0.52.6", "MIT OR Apache-2.0", seq!["Microsoft"])
    } else if i == 247 {
        ("windows-targets", "0.53.5", "MIT OR Apache-2.0", seq![])
    } else if i == 248 {
        ("windows_aarch64_gnullvm", "0.42.2", "MIT OR Apache-2.0", seq!["Microsoft"])
    } else if i == 249 {
        ("windows_aarch64_gnullvm", "0.52.6", "MIT OR Apache-2.0", seq!["Microsoft"])
    } else if i == 250 {
        ("windows_aarch64_gnullvm", "0.53.1", "MIT OR Apache-2.0", seq![])
    } else if i == 251 {
        ("windows_aarch64_msvc", "0.42.2", "MIT OR Apache-2.0", seq!["Microsoft"])
    } else if i == 252 {
        ("windows_aarch64_msvc", "0.52.6", "MIT OR Apache-2.0", seq!["Microsoft"])
    } else if i == 253 {
        ("windows_aarch64_msvc", "0.53.1", "MIT OR Apache-2.0", seq![])
    } else if i == 254 {
        ("windows_i686_gnu", "0.42.2", "MIT OR Apache-2.0", seq!["Microsoft"])
    } else if i == 255 {
        ("windows_i686_gnu", "0.52.6", "MIT OR Apache-2.0", seq!["Microsoft"])
    } else if i == 256 {
        ("windows_i686_gnu", "0.53.1", "MIT OR Apache-2.0", seq![])
    } else if i == 257 {
        ("windows_i686_gnullvm", "0.52.6", "MIT OR Apache-2.0", seq!["Microsoft"])
    } else if i == 258 {
        ("windows_i686_gnullvm", "0.53.1", "MIT OR Apache-2.0", seq![])
    } else if i == 259 {
        ("windows_i686_msvc", "0.42.2", "MIT OR Apache-2.0", seq!["Microsoft"])
    } else if i == 260 {
        ("windows_i686_msvc", "0.52.6", "MIT OR Apache-2.0", seq!["Microsoft"])
    } else if i == 261 {
        ("windows_i686_msvc", "0.53.1", "MIT OR Apache-2.0", seq![])
    } else if i == 262 {
        ("windows_x86_64_gnu", "0.42.2", "MIT OR Apache-2.0", seq!["Microsoft"])
    } else if i == 263 {
        ("windows_x86_64_gnu", "0.52.6", "MIT OR Apache-2.0", seq!["Microsoft"])
    } else if i == 264 {
        ("windows_x86_64_gnu", "0.53.1", "MIT OR Apache-2.0", seq![])
    } else if i == 265 {
        ("windows_x86_64_gnullvm", "0.42.2", "MIT OR Apache-2.0", seq!["Microsoft"])
    } else if i == 266 {
        ("windows_x86_64_gnullvm", "0.52.6", "MIT OR Apache-2.0", seq!["Microsoft"])
    } else if i == 267 {
        ("windows_x86_64_gnullvm", "0.53.1", "MIT OR Apache-2.0", seq![])
    } else if i == 268 {
        ("windows_x86_64_msvc", "0.42.2", "MIT OR Apache-2.0", seq!["Microsoft"])
    } else if i == 269 {
        ("windows_x86_64_msvc", "0.52.6", "MIT OR Apache-2.0", seq!["Microsoft"])
    } else if i == 270 {
        ("windows_x86_64_msvc", "0.53.1", "MIT OR Apache-2.0", seq![])
    } else if i == 271 {
        ("wit-bindgen", "0.51.0", "Apache-2.0 WITH LLVM-exception OR Apache-2.0 OR MIT", seq!["Alex Crichton <alex@alexcrichton.com>"])
    } else if i == 272 {
        ("wit-bindgen-core", "0.51.0", "Apache-2.0 WITH LLVM-exception OR Apache-2.0 OR MIT", seq!["Alex Crichton <alex@alexcrichton.com>"])
    } else if i == 273 {
        ("wit-bindgen-rust", "0.51.0", "Apache-2.0 WITH LLVM-exception OR Apache-2.0 OR MIT", seq!["Alex Crichton <alex@alexcrichton.com>"])
    } else if i == 274 {
        ("wit-bindgen-rust-macro", "0.51.0", "Apache-2.0 WITH LLVM-exception OR Apache-2.0 OR MIT", seq!["Alex Crichton <alex@alexcrichton.com>"])
    } else if i == 275 {
        ("wit-component", "0.244.0", "Apache-2.0 WITH LLVM-exception OR Apache-2.0 OR MIT", seq!["Peter Huene <peter@huene.dev>"])
    } else if i == 276 {
        ("wit-parser", "0.244.0", "Apache-2.0 WITH LLVM-exception OR Apache-2.0 OR MIT", seq!["Alex Crichton <alex@alexcrichton.com>"])
    } else if i == 277 {
        ("writeable", "0.6.2", "Unicode-3.0", seq!["The ICU4X Project Developers"])
    } else if i == 278 {
        ("yoke", "0.8.1", "Unicode-3.0", seq!["Manish Goregaokar <manishsmail@gmail.com>"])
    } else if i == 279 {
        ("yoke-derive", "0.8.1", "Unicode-3.0", seq!["Manish Goregaokar <manishsmail@gmail.com>"])
    } else if i == 280 {
        ("zerocopy", "0.8.39", "BSD-2-Clause OR Apache-2.0 OR MIT", seq!["Joshua Liebow-Feeser <joshlf@google.com>", "Jack Wrenn <jswrenn@amazon.com>"])
    } else if i == 281 {
        ("zerocopy-derive", "0.8.39", "BSD-2-Clause OR Apache-2.0 OR MIT", seq!["Joshua Liebow-Feeser <joshlf@google.com>", "Jack Wrenn <jswrenn@amazon.com>"])
    } else if i == 282 {
        ("zerofrom", "0.1.6", "Unicode-3.0", seq!["Manish Goregaokar <manishsmail@gmail.com>"])
    } else if i == 283 {
        ("zerofrom-derive", "0.1.6", "Unicode-3.0", seq!["Manish Goregaokar <manishsmail@gmail.com>"])
    } else if i == 284 {
        ("zeroize", "1.8.2", "Apache-2.0 OR MIT", seq!["The RustCrypto Project Developers"])
    } else if i == 285 {
        ("zerotrie", "0.2.3", "Unicode-3.0", seq!["The ICU4X Project Developers"])
    } else if i == 286 {
        ("zerovec", "0.11.5", "Unicode-3.0", seq!["The ICU4X Project Developers"])
    } else if i == 287 {
        ("zerovec-derive", "0.11.2", "Unicode-3.0", seq!["Manish Goregaokar <manishsmail@gmail.com>"])
    } else {
        ("zmij", "1.0.21", "MIT", seq!["David Tolnay <dtolnay@gmail.com>"])
    }
}

/// The entry at position `k` of the list.
fn license_at(k: usize) -> (l: LicenseInfo)
    requires
        k < LICENSE_COUNT,
    ensures
        license_view(l) == license_entry(k as int),
{
    match k {
        0 => LicenseInfo {
            name: "android_system_properties",
            version: "0.1.5",
            license: "MIT/Apache-2.0",
            authors: vec!["Nicolas Silva <nical@fastmail.com>"],
        },
        1 => LicenseInfo {
            name: "anyhow",
            version: "1.0.102",
            license: "MIT OR Apache-2.0",
            authors: vec!["David Tolnay <dtolnay@gmail.com>"],
        },
        2 => LicenseInfo {
            name: "arc-swap",
            version: "1.8.2",
            license: "MIT OR Apache-2.0",
            authors: vec!["Michal 'vorner' Vaner <vorner@vorner.cz>"],
        },
        3 => LicenseInfo {
            name: "ascii",
            version: "1.1.0",
            license: "Apache-2.0 OR MIT",
            authors: vec!["Thomas Bahn <thomas@thomas-bahn.net>", "Torbjørn Birch Moltu <t.b.moltu@lyse.net>", "Simon Sapin <simon.sapin@exyr.org>"],
        },
        4 => LicenseInfo {
            name: "atomic-waker",
            version: "1.1.2",
            license: "Apache-2.0 OR MIT",
            authors: vec!["Stjepan Glavina <stjepang@gmail.com>", "Contributors to futures-rs"],
        },
        5 => LicenseInfo {
            name: "autocfg",
            version: "1.5.0",
            license: "Apache-2.0 OR MIT",
            authors: vec!["Josh Stone <cuviper@gmail.com>"],
        },
        6 => LicenseInfo {
            name: "aws-lc-rs",
            version: "1.15.4",
            license: "ISC AND (Apache-2.0 OR ISC)",
            authors: vec!["AWS-LibCrypto"],
        },
        7 => LicenseInfo {
            name: "aws-lc-sys",
            version: "0.37.1",
            license: "ISC AND (Apache-2.0 OR ISC) AND OpenSSL",
            authors: vec!["AWS-LC"],
        },
        8 => LicenseInfo {
            name: "base64",
            version: "0.22.1",
            license: "MIT OR Apache-2.0",
            authors: vec!["Marshall Pierce <marshall@mpierce.org>"],
        },
        9 => LicenseInfo {
            name: "bitflags",
            version: "2.11.0",
            license: "MIT OR Apache-2.0",
            authors: vec!["The Rust Project Developers"],
        },
        10 => LicenseInfo {
            name: "bumpalo",
            version: "3.19.1",
            license: "MIT OR Apache-2.0",
            authors: vec!["Nick Fitzgerald <fitzgen@gmail.com>"],
        },
        11 => LicenseInfo {
            name: "byteorder",
            version: "1.5.0",
            license: "Unlicense OR MIT",
            authors: vec!["Andrew Gallant <jamslam@gmail.com>"],
        },
        12 => LicenseInfo {
            name: "bytes",
            version: "1.11.1",
            license: "MIT",
            authors: vec!["Carl Lerche <me@carllerche.com>", "Sean McArthur <sean@seanmonstar.com>"],
        },
        13 => LicenseInfo {
            name: "camino",
            version: "1.2.2",
            license: "MIT OR Apache-2.0",
            authors: vec!["Without Boats <saoirse@without.boats>", "Ashley Williams <ashley666ashley@gmail.com>", "Steve Klabnik <steve@steveklabnik.com>", "Rain <rain@sunshowers.io>"],
        },
        14 => LicenseInfo {
            name: "cargo-platform",
            version: "0.1.9",
            license: "MIT OR Apache-2.0",
            authors: vec![],
        },
        15 => LicenseInfo {
            name: "cargo_metadata",
            version: "0.19.2",
            license: "MIT",
            authors: vec!["Oliver Schneider <git-spam-no-reply9815368754983@oli-obk.de>"],
        },
        16 => LicenseInfo {
            name: "cc",
            version: "1.2.56",
            license: "MIT OR Apache-2.0",
            authors: vec!["Alex Crichton <alex@alexcrichton.com>"],
        },
        17 => LicenseInfo {
            name: "cesu8",
            version: "1.1.0",
            license: "Apache-2.0/MIT",
            authors: vec!["Eric Kidd <git@randomhacks.net>"],
        },
        18 => LicenseInfo {
            name: "cfg-if",
            version: "1.0.4",
            license: "MIT OR Apache-2.0",
            authors: vec!["Alex Crichton <alex@alexcrichton.com>"],
        },
        19 => LicenseInfo {
            name: "cfg_aliases",
            version: "0.2.1",
            license: "MIT",
            authors: vec!["Zicklag <zicklag@katharostech.com>"],
        },
        20 => LicenseInfo {
            name: "chacha20",
            version: "0.10.0",
            license: "MIT OR Apache-2.0",
            authors: vec!["RustCrypto Developers"],
        },
        21 => LicenseInfo {
            name: "chrono",
            version: "0.4.43",
            license: "MIT OR Apache-2.0",
            authors: vec![],
        },
        22 => LicenseInfo {
            name: "chunked_transfer",
            version: "1.5.0",
            license: "MIT OR Apache-2.0",
            authors: vec!["Corey Farwell <coreyf@rwell.org>"],
        },
        23 => LicenseInfo {
            name: "cmake",
            version: "0.1.57",
            license: "MIT OR Apache-2.0",
            authors: vec!["Alex Crichton <alex@alexcrichton.com>"],
        },
        24 => LicenseInfo {
            name: "colored",
            version: "3.1.1",
            license: "MPL-2.0",
            authors: vec!["Thomas Wickham <mackwic@gmail.com>"],
        },
        25 => LicenseInfo {
            name: "combine",
            version: "4.6.7",
            license: "MIT",
            authors: vec!["Markus Westerlind <marwes91@gmail.com>"],
        },
        26 => LicenseInfo {
            name: "core-foundation",
            version: "0.9.4",
            license: "MIT OR Apache-2.0",
            authors: vec!["The Servo Project Developers"],
        },
        27 => LicenseInfo {
            name: "core-foundation",
            version: "0.10.1",
            license: "MIT OR Apache-2.0",
            authors: vec!["The Servo Project Developers"],
        },
        28 => LicenseInfo {
            name: "core-foundation-sys",
            version: "0.8.7",
            license: "MIT OR Apache-2.0",
            authors: vec!["The Servo Project Developers"],
        },
        29 => LicenseInfo {
            name: "cpufeatures",
            version: "0.3.0",
            license: "MIT OR Apache-2.0",
            authors: vec!["RustCrypto Developers"],
        },
        30 => LicenseInfo {
            name: "darling",
            version: "0.20.11",
            license: "MIT",
            authors: vec!["Ted Driggs <ted.driggs@outlook.com>"],
        },
        31 => LicenseInfo {
            name: "darling_core",
            version: "0.20.11",
            license: "MIT",
            authors: vec!["Ted Driggs <ted.driggs@outlook.com>"],
        },
        32 => LicenseInfo {
            name: "darling_macro",
            version: "0.20.11",
            license: "MIT",
            authors: vec!["Ted Driggs <ted.driggs@outlook.com>"],
        },
        33 => LicenseInfo {
            name: "derive_builder",
            version: "0.20.2",
            license: "MIT OR Apache-2.0",
            authors: vec!["Colin Kiegel <kiegel@gmx.de>", "Pascal Hertleif <killercup@gmail.com>", "Jan-Erik Rediger <janerik@fnordig.de>", "Ted Driggs <ted.driggs@outlook.com>"],
        },
        34 => LicenseInfo {
            name: "derive_builder_core",
            version: "0.20.2",
            license: "MIT OR Apache-2.0",
            authors: vec!["Colin Kiegel <kiegel@gmx.de>", "Pascal Hertleif <killercup@gmail.com>", "Jan-Erik Rediger <janerik@fnordig.de>", "Ted Driggs <ted.driggs@outlook.com>"],
        },
        35 => LicenseInfo {
            name: "derive_builder_macro",
            version: "0.20.2",
            license: "MIT OR Apache-2.0",
            authors: vec!["Colin Kiegel <kiegel@gmx.de>", "Pascal Hertleif <killercup@gmail.com>", "Jan-Erik Rediger <janerik@fnordig.de>", "Ted Driggs <ted.driggs@outlook.com>"],
        },
        36 => LicenseInfo {
            name: "derive_more",
            version: "2.1.1",
            license: "MIT",
            authors: vec!["Jelte Fennema <github-tech@jeltef.nl>"],
        },
        37 => LicenseInfo {
            name: "derive_more-impl",
            version: "2.1.1",
            license: "MIT",
            authors: vec!["Jelte Fennema <github-tech@jeltef.nl>"],
        },
        38 => LicenseInfo {
            name: "destructure_traitobject",
            version: "0.2.0",
            license: "MIT/Apache-2.0",
            authors: vec!["Jonathan Reem <jonathan.reem@gmail.com>", "Steven Fackler <sfackler@gmail.com>", "Alexander Regueiro <alexreg@me.com>", "Philip Peterson <philip.c.peterson@gmail.com>"],
        },
        39 => LicenseInfo {
            name: "displaydoc",
            version: "0.2.5",
            license: "MIT OR Apache-2.0",
            authors: vec!["Jane Lusby <jlusby@yaah.dev>"],
        },
        40 => LicenseInfo {
            name: "dunce",
            version: "1.0.5",
            license: "CC0-1.0 OR MIT-0 OR Apache-2.0",
            authors: vec!["Kornel <kornel@geekhood.net>"],
        },
        41 => LicenseInfo {
            name: "either",
            version: "1.15.0",
            license: "MIT OR Apache-2.0",
            authors: vec!["bluss"],
        },
        42 => LicenseInfo {
            name: "encoding_rs",
            version: "0.8.35",
            license: "(Apache-2.0 OR MIT) AND BSD-3-Clause",
            authors: vec!["Henri Sivonen <hsivonen@hsivonen.fi>"],
        },
        43 => LicenseInfo {
            name: "equivalent",
            version: "1.0.2",
            license: "Apache-2.0 OR MIT",
            authors: vec![],
        },
        44 => LicenseInfo {
            name: "errno",
            version: "0.3.14",
            license: "MIT OR Apache-2.0",
            authors: vec!["Chris Wong <lambda.fairy@gmail.com>", "Dan Gohman <dev@sunfishcode.online>"],
        },
        45 => LicenseInfo {
            name: "fastrand",
            version: "2.3.0",
            license: "Apache-2.0 OR MIT",
            authors: vec!["Stjepan Glavina <stjepang@gmail.com>"],
        },
        46 => LicenseInfo {
            name: "find-msvc-tools",
            version: "0.1.9",
            license: "MIT OR Apache-2.0",
            authors: vec![],
        },
        47 => LicenseInfo {
            name: "fnv",
            version: "1.0.7",
            license: "Apache-2.0 / MIT",
            authors: vec!["Alex Crichton <alex@alexcrichton.com>"],
        },
        48 => LicenseInfo {
            name: "foldhash",
            version: "0.1.5",
            license: "Zlib",
            authors: vec!["Orson Peters <orsonpeters@gmail.com>"],
        },
        49 => LicenseInfo {
            name: "foreign-types",
            version: "0.3.2",
            license: "MIT/Apache-2.0",
            authors: vec!["Steven Fackler <sfackler@gmail.com>"],
        },
        50 => LicenseInfo {
            name: "foreign-types-shared",
            version: "0.1.1",
            license: "MIT/Apache-2.0",
            authors: vec!["Steven Fackler <sfackler@gmail.com>"],
        },
        51 => LicenseInfo {
            name: "form_urlencoded",
            version: "1.2.2",
            license: "MIT OR Apache-2.0",
            authors: vec!["The rust-url developers"],
        },
        52 => LicenseInfo {
            name: "fs_extra",
            version: "1.3.0",
            license: "MIT",
            authors: vec!["Denis Kurilenko <webdesus@gmail.com>"],
        },
        53 => LicenseInfo {
            name: "futures-channel",
            version: "0.3.32",
            license: "MIT OR Apache-2.0",
            authors: vec![],
        },
        54 => LicenseInfo {
            name: "futures-core",
            version: "0.3.32",
            license: "MIT OR Apache-2.0",
            authors: vec![],
        },
        55 => LicenseInfo {
            name: "futures-io",
            version: "0.3.32",
            license: "MIT OR Apache-2.0",
            authors: vec![],
        },
        56 => LicenseInfo {
            name: "futures-sink",
            version: "0.3.32",
            license: "MIT OR Apache-2.0",
            authors: vec![],
        },
        57 => LicenseInfo {
            name: "futures-task",
            version: "0.3.32",
            license: "MIT OR Apache-2.0",
            authors: vec![],
        },
        58 => LicenseInfo {
            name: "futures-util",
            version: "0.3.32",
            license: "MIT OR Apache-2.0",
            authors: vec![],
        },
        59 => LicenseInfo {
            name: "getrandom",
            version: "0.2.17",
            license: "MIT OR Apache-2.0",
            authors: vec!["The Rand Project Developers"],
        },
        60 => LicenseInfo {
            name: "getrandom",
            version: "0.3.4",
            license: "MIT OR Apache-2.0",
            authors: vec!["The Rand Project Developers"],
        },
        61 => LicenseInfo {
            name: "getrandom",
            version: "0.4.1",
            license: "MIT OR Apache-2.0",
            authors: vec!["The Rand Project Developers"],
        },
        62 => LicenseInfo {
            name: "getset",
            version: "0.1.6",
            license: "MIT",
            authors: vec!["Ana Hobden <ana@hoverbear.org>", "John Baublitz <john.m.baublitz@gmail.com"],
        },
        63 => LicenseInfo {
            name: "h2",
            version: "0.4.13",
            license: "MIT",
            authors: vec!["Carl Lerche <me@carllerche.com>", "Sean McArthur <sean@seanmonstar.com>"],
        },
        64 => LicenseInfo {
            name: "hashbrown",
            version: "0.15.5",
            license: "MIT OR Apache-2.0",
            authors: vec!["Amanieu d'Antras <amanieu@gmail.com>"],
        },
        65 => LicenseInfo {
            name: "hashbrown",
            version: "0.16.1",
            license: "MIT OR Apache-2.0",
            authors: vec!["Amanieu d'Antras <amanieu@gmail.com>"],
        },
        66 => LicenseInfo {
            name: "heck",
            version: "0.5.0",
            license: "MIT OR Apache-2.0",
            authors: vec![],
        },
        67 => LicenseInfo {
            name: "http",
            version: "1.4.0",
            license: "MIT OR Apache-2.0",
            authors: vec!["Alex Crichton <alex@alexcrichton.com>", "Carl Lerche <me@carllerche.com>", "Sean McArthur <sean@seanmonstar.com>"],
        },
        68 => LicenseInfo {
            name: "http-body",
            version: "1.0.1",
            license: "MIT",
            authors: vec!["Carl Lerche <me@carllerche.com>", "Lucio Franco <luciofranco14@gmail.com>", "Sean McArthur <sean@seanmonstar.com>"],
        },
        69 => LicenseInfo {
            name: "http-body-util",
            version: "0.1.3",
            license: "MIT",
            authors: vec!["Carl Lerche <me@carllerche.com>", "Lucio Franco <luciofranco14@gmail.com>", "Sean McArthur <sean@seanmonstar.com>"],
        },
        70 => LicenseInfo {
            name: "httparse",
            version: "1.10.1",
            license: "MIT OR Apache-2.0",
            authors: vec!["Sean McArthur <sean@seanmonstar.com>"],
        },
        71 => LicenseInfo {
            name: "httpdate",
            version: "1.0.3",
            license: "MIT OR Apache-2.0",
            authors: vec!["Pyfisch <pyfisch@posteo.org>"],
        },
        72 => LicenseInfo {
            name: "humantime",
            version: "2.3.0",
            license: "MIT OR Apache-2.0",
            authors: vec![],
        },
        73 => LicenseInfo {
            name: "hyper",
            version: "1.8.1",
            license: "MIT",
            authors: vec!["Sean McArthur <sean@seanmonstar.com>"],
        },
        74 => LicenseInfo {
            name: "hyper-rustls",
            version: "0.27.7",
            license: "Apache-2.0 OR ISC OR MIT",
            authors: vec![],
        },
        75 => LicenseInfo {
            name: "hyper-tls",
            version: "0.6.0",
            license: "MIT/Apache-2.0",
            authors: vec!["Sean McArthur <sean@seanmonstar.com>"],
        },
        76 => LicenseInfo {
            name: "hyper-util",
            version: "0.1.20",
            license: "MIT",
            authors: vec!["Sean McArthur <sean@seanmonstar.com>"],
        },
        77 => LicenseInfo {
            name: "iana-time-zone",
            version: "0.1.65",
            license: "MIT OR Apache-2.0",
            authors: vec!["Andrew Straw <strawman@astraw.com>", "René Kijewski <rene.kijewski@fu-berlin.de>", "Ryan Lopopolo <rjl@hyperbo.la>"],
        },
        78 => LicenseInfo {
            name: "iana-time-zone-haiku",
            version: "0.1.2",
            license: "MIT OR Apache-2.0",
            authors: vec!["René Kijewski <crates.io@k6i.de>"],
        },
        79 => LicenseInfo {
            name: "icu_collections",
            version: "2.1.1",
            license: "Unicode-3.0",
            authors: vec!["The ICU4X Project Developers"],
        },
        80 => LicenseInfo {
            name: "icu_locale_core",
            version: "2.1.1",
            license: "Unicode-3.0",
            authors: vec!["The ICU4X Project Developers"],
        },
        81 => LicenseInfo {
            name: "icu_normalizer",
            version: "2.1.1",
            license: "Unicode-3.0",
            authors: vec!["The ICU4X Project Developers"],
        },
        82 => LicenseInfo {
            name: "icu_normalizer_data",
            version: "2.1.1",
            license: "Unicode-3.0",
            authors: vec!["The ICU4X Project Developers"],
        },
        83 => LicenseInfo {
            name: "icu_properties",
            version: "2.1.2",
            license: "Unicode-3.0",
            authors: vec!["The ICU4X Project Developers"],
        },
        84 => LicenseInfo {
            name: "icu_properties_data",
            version: "2.1.2",
            license: "Unicode-3.0",
            authors: vec!["The ICU4X Project Developers"],
        },
        85 => LicenseInfo {
            name: "icu_provider",
            version: "2.1.1",
            license: "Unicode-3.0",
            authors: vec!["The ICU4X Project Developers"],
        },
        86 => LicenseInfo {
            name: "id-arena",
            version: "2.3.0",
            license: "MIT/Apache-2.0",
            authors: vec!["Nick Fitzgerald <fitzgen@gmail.com>", "Aleksey Kladov <aleksey.kladov@gmail.com>"],
        },
        87 => LicenseInfo {
            name: "ident_case",
            version: "1.0.1",
            license: "MIT/Apache-2.0",
            authors: vec!["Ted Driggs <ted.driggs@outlook.com>"],
        },
        88 => LicenseInfo {
            name: "idna",
            version: "1.1.0",
            license: "MIT OR Apache-2.0",
            authors: vec!["The rust-url developers"],
        },
        89 => LicenseInfo {
            name: "idna_adapter",
            version: "1.2.1",
            license: "Apache-2.0 OR MIT",
            authors: vec!["The rust-url developers"],
        },
        90 => LicenseInfo {
            name: "indexmap",
            version: "2.13.0",
            license: "Apache-2.0 OR MIT",
            authors: vec![],
        },
        91 => LicenseInfo {
            name: "ipnet",
            version: "2.11.0",
            license: "MIT OR Apache-2.0",
            authors: vec!["Kris Price <kris@krisprice.nz>"],
        },
        92 => LicenseInfo {
            name: "iri-string",
            version: "0.7.10",
            license: "MIT OR Apache-2.0",
            authors: vec!["YOSHIOKA Takuma <nop_thread@nops.red>"],
        },
        93 => LicenseInfo {
            name: "itoa",
            version: "1.0.17",
            license: "MIT OR Apache-2.0",
            authors: vec!["David Tolnay <dtolnay@gmail.com>"],
        },
        94 => LicenseInfo {
            name: "jni",
            version: "0.21.1",
            license: "MIT/Apache-2.0",
            authors: vec!["Josh Chase <josh@prevoty.com>"],
        },
        95 => LicenseInfo {
            name: "jni-sys",
            version: "0.3.0",
            license: "MIT/Apache-2.0",
            authors: vec!["Steven Fackler <sfackler@gmail.com>"],
        },
        96 => LicenseInfo {
            name: "jobserver",
            version: "0.1.34",
            license: "MIT OR Apache-2.0",
            authors: vec!["Alex Crichton <alex@alexcrichton.com>"],
        },
        97 => LicenseInfo {
            name: "js-sys",
            version: "0.3.85",
            license: "MIT OR Apache-2.0",
            authors: vec!["The wasm-bindgen Developers"],
        },
        98 => LicenseInfo {
            name: "leb128fmt",
            version: "0.1.0",
            license: "MIT OR Apache-2.0",
            authors: vec!["Bryant Luk <code@bryantluk.com>"],
        },
        99 => LicenseInfo {
            name: "libc",
            version: "0.2.182",
            license: "MIT OR Apache-2.0",
            authors: vec!["The Rust Project Developers"],
        },
        100 => LicenseInfo {
            name: "linux-raw-sys",
            version: "0.11.0",
            license: "Apache-2.0 WITH LLVM-exception OR Apache-2.0 OR MIT",
            authors: vec!["Dan Gohman <dev@sunfishcode.online>"],
        },
        101 => LicenseInfo {
            name: "litemap",
            version: "0.8.1",
            license: "Unicode-3.0",
            authors: vec!["The ICU4X Project Developers"],
        },
        102 => LicenseInfo {
            name: "local-ip-address",
            version: "0.6.10",
            license: "MIT OR Apache-2.0",
            authors: vec!["Leo Borai <estebanborai@gmail.com>"],
        },
        103 => LicenseInfo {
            name: "lock_api",
            version: "0.4.14",
            license: "MIT OR Apache-2.0",
            authors: vec!["Amanieu d'Antras <amanieu@gmail.com>"],
        },
        104 => LicenseInfo {
            name: "log",
            version: "0.4.29",
            license: "MIT OR Apache-2.0",
            authors: vec!["The Rust Project Developers"],
        },
        105 => LicenseInfo {
            name: "log-mdc",
            version: "0.1.0",
            license: "MIT/Apache-2.0",
            authors: vec!["Steven Fackler <sfackler@gmail.com>"],
        },
        106 => LicenseInfo {
            name: "log4rs",
            version: "1.4.0",
            license: "MIT OR Apache-2.0",
            authors: vec!["Steven Fackler <sfackler@gmail.com>", "Evan Simmons <esims89@gmail.com>"],
        },
        107 => LicenseInfo {
            name: "lru-slab",
            version: "0.1.2",
            license: "MIT OR Apache-2.0 OR Zlib",
            authors: vec!["Benjamin Saunders <ben.e.saunders@gmail.com>"],
        },
        108 => LicenseInfo {
            name: "memchr",
            version: "2.8.0",
            license: "Unlicense OR MIT",
            authors: vec!["Andrew Gallant <jamslam@gmail.com>", "bluss"],
        },
        109 => LicenseInfo {
            name: "mime",
            version: "0.3.17",
            license: "MIT OR Apache-2.0",
            authors: vec!["Sean McArthur <sean@seanmonstar.com>"],
        },
        110 => LicenseInfo {
            name: "mio",
            version: "1.1.1",
            license: "MIT",
            authors: vec!["Carl Lerche <me@carllerche.com>", "Thomas de Zeeuw <thomasdezeeuw@gmail.com>", "Tokio Contributors <team@tokio.rs>"],
        },
        111 => LicenseInfo {
            name: "mock_instant",
            version: "0.6.0",
            license: "0BSD",
            authors: vec!["museun <museun@outlook.com>"],
        },
        112 => LicenseInfo {
            name: "native-tls",
            version: "0.2.16",
            license: "MIT OR Apache-2.0",
            authors: vec!["Steven Fackler <sfackler@gmail.com>"],
        },
        113 => LicenseInfo {
            name: "neli",
            version: "0.7.4",
            license: "BSD-3-Clause",
            authors: vec!["John Baublitz <john.m.baublitz@gmail.com>"],
        },
        114 => LicenseInfo {
            name: "neli-proc-macros",
            version: "0.2.2",
            license: "BSD-3-Clause",
            authors: vec!["John Baublitz <john.m.baublitz@gmail.com>"],
        },
        115 => LicenseInfo {
            name: "num-traits",
            version: "0.2.19",
            license: "MIT OR Apache-2.0",
            authors: vec!["The Rust Project Developers"],
        },
        116 => LicenseInfo {
            name: "once_cell",
            version: "1.21.3",
            license: "MIT OR Apache-2.0",
            authors: vec!["Aleksey Kladov <aleksey.kladov@gmail.com>"],
        },
        117 => LicenseInfo {
            name: "openssl",
            version: "0.10.75",
            license: "Apache-2.0",
            authors: vec!["Steven Fackler <sfackler@gmail.com>"],
        },
        118 => LicenseInfo {
            name: "openssl-macros",
            version: "0.1.1",
            license: "MIT/Apache-2.0",
            authors: vec![],
        },
        119 => LicenseInfo {
            name: "openssl-probe",
            version: "0.2.1",
            license: "MIT OR Apache-2.0",
            authors: vec!["Alex Crichton <alex@alexcrichton.com>"],
        },
        120 => LicenseInfo {
            name: "openssl-sys",
            version: "0.9.111",
            license: "MIT",
            authors: vec!["Alex Crichton <alex@alexcrichton.com>", "Steven Fackler <sfackler@gmail.com>"],
        },
        121 => LicenseInfo {
            name: "ordered-float",
            version: "2.10.1",
            license: "MIT",
            authors: vec!["Jonathan Reem <jonathan.reem@gmail.com>", "Matt Brubeck <mbrubeck@limpet.net>"],
        },
        122 => LicenseInfo {
            name: "parking_lot",
            version: "0.12.5",
            license: "MIT OR Apache-2.0",
            authors: vec!["Amanieu d'Antras <amanieu@gmail.com>"],
        },
        123 => LicenseInfo {
            name: "parking_lot_core",
            version: "0.9.12",
            license: "MIT OR Apache-2.0",
            authors: vec!["Amanieu d'Antras <amanieu@gmail.com>"],
        },
        124 => LicenseInfo {
            name: "percent-encoding",
            version: "2.3.2",
            license: "MIT OR Apache-2.0",
            authors: vec!["The rust-url developers"],
        },
        125 => LicenseInfo {
            name: "pin-project-lite",
            version: "0.2.16",
            license: "Apache-2.0 OR MIT",
            authors: vec![],
        },
        126 => LicenseInfo {
            name: "pin-utils",
            version: "0.1.0",
            license: "MIT OR Apache-2.0",
            authors: vec!["Josef Brandl <mail@josefbrandl.de>"],
        },
        127 => LicenseInfo {
            name: "pkg-config",
            version: "0.3.32",
            license: "MIT OR Apache-2.0",
            authors: vec!["Alex Crichton <alex@alexcrichton.com>"],
        },
        128 => LicenseInfo {
            name: "positive_tool_rs",
            version: "0.7.0",
            license: "AGPL-3.0-only",
            authors: vec![],
        },
        129 => LicenseInfo {
            name: "potential_utf",
            version: "0.1.4",
            license: "Unicode-3.0",
            authors: vec!["The ICU4X Project Developers"],
        },
        130 => LicenseInfo {
            name: "ppv-lite86",
            version: "0.2.21",
            license: "MIT OR Apache-2.0",
            authors: vec!["The CryptoCorrosion Contributors"],
        },
        131 => LicenseInfo {
            name: "prettyplease",
            version: "0.2.37",
            license: "MIT OR Apache-2.0",
            authors: vec!["David Tolnay <dtolnay@gmail.com>"],
        },
        132 => LicenseInfo {
            name: "proc-macro-error-attr2",
            version: "2.0.0",
            license: "MIT OR Apache-2.0",
            authors: vec!["CreepySkeleton <creepy-skeleton@yandex.ru>", "GnomedDev <david2005thomas@gmail.com>"],
        },
        133 => LicenseInfo {
            name: "proc-macro-error2",
            version: "2.0.1",
            license: "MIT OR Apache-2.0",
            authors: vec!["CreepySkeleton <creepy-skeleton@yandex.ru>", "GnomedDev <david2005thomas@gmail.com>"],
        },
        134 => LicenseInfo {
            name: "proc-macro2",
            version: "1.0.106",
            license: "MIT OR Apache-2.0",
            authors: vec!["David Tolnay <dtolnay@gmail.com>", "Alex Crichton <alex@alexcrichton.com>"],
        },
        135 => LicenseInfo {
            name: "quinn",
            version: "0.11.9",
            license: "MIT OR Apache-2.0",
            authors: vec![],
        },
        136 => LicenseInfo {
            name: "quinn-proto",
            version: "0.11.13",
            license: "MIT OR Apache-2.0",
            authors: vec![],
        },
        137 => LicenseInfo {
            name: "quinn-udp",
            version: "0.5.14",
            license: "MIT OR Apache-2.0",
            authors: vec![],
        },
        138 => LicenseInfo {
            name: "quote",
            version: "1.0.44",
            license: "MIT OR Apache-2.0",
            authors: vec!["David Tolnay <dtolnay@gmail.com>"],
        },
        139 => LicenseInfo {
            name: "r-efi",
            version: "5.3.0",
            license: "MIT OR Apache-2.0 OR LGPL-2.1-or-later",
            authors: vec![],
        },
        140 => LicenseInfo {
            name: "rand",
            version: "0.9.2",
            license: "MIT OR Apache-2.0",
            authors: vec!["The Rand Project Developers", "The Rust Project Developers"],
        },
        141 => LicenseInfo {
            name: "rand",
            version: "0.10.0",
            license: "MIT OR Apache-2.0",
            authors: vec!["The Rand Project Developers", "The Rust Project Developers"],
        },
        142 => LicenseInfo {
            name: "rand_chacha",
            version: "0.9.0",
            license: "MIT OR Apache-2.0",
            authors: vec!["The Rand Project Developers", "The Rust Project Developers", "The CryptoCorrosion Contributors"],
        },
        143 => LicenseInfo {
            name: "rand_core",
            version: "0.9.5",
            license: "MIT OR Apache-2.0",
            authors: vec!["The Rand Project Developers", "The Rust Project Developers"],
        },
        144 => LicenseInfo {
            name: "rand_core",
            version: "0.10.0",
            license: "MIT OR Apache-2.0",
            authors: vec!["The Rand Project Developers"],
        },
        145 => LicenseInfo {
            name: "redox_syscall",
            version: "0.5.18",
            license: "MIT",
            authors: vec!["Jeremy Soller <jackpot51@gmail.com>"],
        },
        146 => LicenseInfo {
            name: "reqwest",
            version: "0.13.2",
            license: "MIT OR Apache-2.0",
            authors: vec!["Sean McArthur <sean@seanmonstar.com>"],
        },
        147 => LicenseInfo {
            name: "ring",
            version: "0.17.14",
            license: "Apache-2.0 AND ISC",
            authors: vec![],
        },
        148 => LicenseInfo {
            name: "rustc-hash",
            version: "2.1.1",
            license: "Apache-2.0 OR MIT",
            authors: vec!["The Rust Project Developers"],
        },
        149 => LicenseInfo {
            name: "rustc_version",
            version: "0.4.1",
            license: "MIT OR Apache-2.0",
            authors: vec![],
        },
        150 => LicenseInfo {
            name: "rustix",
            version: "1.1.3",
            license: "Apache-2.0 WITH LLVM-exception OR Apache-2.0 OR MIT",
            authors: vec!["Dan Gohman <dev@sunfishcode.online>", "Jakub Konka <kubkon@jakubkonka.com>"],
        },
        151 => LicenseInfo {
            name: "rustls",
            version: "0.23.36",
            license: "Apache-2.0 OR ISC OR MIT",
            authors: vec![],
        },
        152 => LicenseInfo {
            name: "rustls-native-certs",
            version: "0.8.3",
            license: "Apache-2.0 OR ISC OR MIT",
            authors: vec![],
        },
        153 => LicenseInfo {
            name: "rustls-pki-types",
            version: "1.14.0",
            license: "MIT OR Apache-2.0",
            authors: vec![],
        },
        154 => LicenseInfo {
            name: "rustls-platform-verifier",
            version: "0.6.2",
            license: "MIT OR Apache-2.0",
            authors: vec![],
        },
        155 => LicenseInfo {
            name: "rustls-platform-verifier-android",
            version: "0.1.1",
            license: "MIT OR Apache-2.0",
            authors: vec![],
        },
        156 => LicenseInfo {
            name: "rustls-webpki",
            version: "0.103.9",
            license: "ISC",
            authors: vec![],
        },
        157 => LicenseInfo {
            name: "rustversion",
            version: "1.0.22",
            license: "MIT OR Apache-2.0",
            authors: vec!["David Tolnay <dtolnay@gmail.com>"],
        },
        158 => LicenseInfo {
            name: "ryu",
            version: "1.0.23",
            license: "Apache-2.0 OR BSL-1.0",
            authors: vec!["David Tolnay <dtolnay@gmail.com>"],
        },
        159 => LicenseInfo {
            name: "same-file",
            version: "1.0.6",
            license: "Unlicense/MIT",
            authors: vec!["Andrew Gallant <jamslam@gmail.com>"],
        },
        160 => LicenseInfo {
            name: "schannel",
            version: "0.1.28",
            license: "MIT",
            authors: vec!["Steven Fackler <sfackler@gmail.com>", "Steffen Butzer <steffen.butzer@outlook.com>"],
        },
        161 => LicenseInfo {
            name: "scopeguard",
            version: "1.2.0",
            license: "MIT OR Apache-2.0",
            authors: vec!["bluss"],
        },
        162 => LicenseInfo {
            name: "security-framework",
            version: "3.6.0",
            license: "MIT OR Apache-2.0",
            authors: vec!["Steven Fackler <sfackler@gmail.com>", "Kornel <kornel@geekhood.net>"],
        },
        163 => LicenseInfo {
            name: "security-framework-sys",
            version: "2.16.0",
            license: "MIT OR Apache-2.0",
            authors: vec!["Steven Fackler <sfackler@gmail.com>", "Kornel <kornel@geekhood.net>"],
        },
        164 => LicenseInfo {
            name: "semver",
            version: "1.0.27",
            license: "MIT OR Apache-2.0",
            authors: vec!["David Tolnay <dtolnay@gmail.com>"],
        },
        165 => LicenseInfo {
            name: "serde",
            version: "1.0.228",
            license: "MIT OR Apache-2.0",
            authors: vec!["Erick Tryzelaar <erick.tryzelaar@gmail.com>", "David Tolnay <dtolnay@gmail.com>"],
        },
        166 => LicenseInfo {
            name: "serde-value",
            version: "0.7.0",
            license: "MIT",
            authors: vec!["arcnmx"],
        },
        167 => LicenseInfo {
            name: "serde_core",
            version: "1.0.228",
            license: "MIT OR Apache-2.0",
            authors: vec!["Erick Tryzelaar <erick.tryzelaar@gmail.com>", "David Tolnay <dtolnay@gmail.com>"],
        },
        168 => LicenseInfo {
            name: "serde_derive",
            version: "1.0.228",
            license: "MIT OR Apache-2.0",
            authors: vec!["Erick Tryzelaar <erick.tryzelaar@gmail.com>", "David Tolnay <dtolnay@gmail.com>"],
        },
        169 => LicenseInfo {
            name: "serde_json",
            version: "1.0.149",
            license: "MIT OR Apache-2.0",
            authors: vec!["Erick Tryzelaar <erick.tryzelaar@gmail.com>", "David Tolnay <dtolnay@gmail.com>"],
        },
        170 => LicenseInfo {
            name: "serde_yaml",
            version: "0.9.34+deprecated",
            license: "MIT OR Apache-2.0",
            authors: vec!["David Tolnay <dtolnay@gmail.com>"],
        },
        171 => LicenseInfo {
            name: "shlex",
            version: "1.3.0",
            license: "MIT OR Apache-2.0",
            authors: vec!["comex <comexk@gmail.com>", "Fenhl <fenhl@fenhl.net>", "Adrian Taylor <adetaylor@chromium.org>", "Alex Touchet <alextouchet@outlook.com>", "Daniel Parks <dp+git@oxidized.org>", "Garrett Berg <googberg@gmail.com>"],
        },
        172 => LicenseInfo {
            name: "slab",
            version: "0.4.12",
            license: "MIT",
            authors: vec!["Carl Lerche <me@carllerche.com>"],
        },
        173 => LicenseInfo {
            name: "smallvec",
            version: "1.15.1",
            license: "MIT OR Apache-2.0",
            authors: vec!["The Servo Project Developers"],
        },
        174 => LicenseInfo {
            name: "socket2",
            version: "0.6.2",
            license: "MIT OR Apache-2.0",
            authors: vec!["Alex Crichton <alex@alexcrichton.com>", "Thomas de Zeeuw <thomasdezeeuw@gmail.com>"],
        },
        175 => LicenseInfo {
            name: "stable_deref_trait",
            version: "1.2.1",
            license: "MIT OR Apache-2.0",
            authors: vec!["Robert Grosse <n210241048576@gmail.com>"],
        },
        176 => LicenseInfo {
            name: "strsim",
            version: "0.11.1",
            license: "MIT",
            authors: vec!["Danny Guo <danny@dannyguo.com>", "maxbachmann <oss@maxbachmann.de>"],
        },
        177 => LicenseInfo {
            name: "subtle",
            version: "2.6.1",
            license: "BSD-3-Clause",
            authors: vec!["Isis Lovecruft <isis@patternsinthevoid.net>", "Henry de Valence <hdevalence@hdevalence.ca>"],
        },
        178 => LicenseInfo {
            name: "syn",
            version: "2.0.116",
            license: "MIT OR Apache-2.0",
            authors: vec!["David Tolnay <dtolnay@gmail.com>"],
        },
        179 => LicenseInfo {
            name: "sync_wrapper",
            version: "1.0.2",
            license: "Apache-2.0",
            authors: vec!["Actyx AG <developer@actyx.io>"],
        },
        180 => LicenseInfo {
            name: "synstructure",
            version: "0.13.2",
            license: "MIT",
            authors: vec!["Nika Layzell <nika@thelayzells.com>"],
        },
        181 => LicenseInfo {
            name: "system-configuration",
            version: "0.7.0",
            license: "MIT OR Apache-2.0",
            authors: vec!["Mullvad VPN"],
        },
        182 => LicenseInfo {
            name: "system-configuration-sys",
            version: "0.6.0",
            license: "MIT OR Apache-2.0",
            authors: vec!["Mullvad VPN"],
        },
        183 => LicenseInfo {
            name: "tempfile",
            version: "3.25.0",
            license: "MIT OR Apache-2.0",
            authors: vec!["Steven Allen <steven@stebalien.com>", "The Rust Project Developers", "Ashley Mannix <ashleymannix@live.com.au>", "Jason White <me@jasonwhite.io>"],
        },
        184 => LicenseInfo {
            name: "thiserror",
            version: "1.0.69",
            license: "MIT OR Apache-2.0",
            authors: vec!["David Tolnay <dtolnay@gmail.com>"],
        },
        185 => LicenseInfo {
            name: "thiserror",
            version: "2.0.18",
            license: "MIT OR Apache-2.0",
            authors: vec!["David Tolnay <dtolnay@gmail.com>"],
        },
        186 => LicenseInfo {
            name: "thiserror-impl",
            version: "1.0.69",
            license: "MIT OR Apache-2.0",
            authors: vec!["David Tolnay <dtolnay@gmail.com>"],
        },
        187 => LicenseInfo {
            name: "thiserror-impl",
            version: "2.0.18",
            license: "MIT OR Apache-2.0",
            authors: vec!["David Tolnay <dtolnay@gmail.com>"],
        },
        188 => LicenseInfo {
            name: "thread-id",
            version: "5.1.0",
            license: "MIT OR Apache-2.0",
            authors: vec!["Ruud van Asseldonk <dev@veniogames.com>"],
        },
        189 => LicenseInfo {
            name: "tiny_http",
            version: "0.12.0",
            license: "MIT OR Apache-2.0",
            authors: vec!["pierre.krieger1708@gmail.com", "Corey Farwell <coreyf@rwell.org>"],
        },
        190 => LicenseInfo {
            name: "tinystr",
            version: "0.8.2",
            license: "Unicode-3.0",
            authors: vec!["The ICU4X Project Developers"],
        },
        191 => LicenseInfo {
            name: "tinyvec",
            version: "1.10.0",
            license: "Zlib OR Apache-2.0 OR MIT",
            authors: vec!["Lokathor <zefria@gmail.com>"],
        },
        192 => LicenseInfo {
            name: "tinyvec_macros",
            version: "0.1.1",
            license: "MIT OR Apache-2.0 OR Zlib",
            authors: vec!["Soveu <marx.tomasz@gmail.com>"],
        },
        193 => LicenseInfo {
            name: "tokio",
            version: "1.49.0",
            license: "MIT",
            authors: vec!["Tokio Contributors <team@tokio.rs>"],
        },
        194 => LicenseInfo {
            name: "tokio-native-tls",
            version: "0.3.1",
            license: "MIT",
            authors: vec!["Tokio Contributors <team@tokio.rs>"],
        },
        195 => LicenseInfo {
            name: "tokio-rustls",
            version: "0.26.4",
            license: "MIT OR Apache-2.0",
            authors: vec![],
        },
        196 => LicenseInfo {
            name: "tokio-util",
            version: "0.7.18",
            license: "MIT",
            authors: vec!["Tokio Contributors <team@tokio.rs>"],
        },
        197 => LicenseInfo {
            name: "tower",
            version: "0.5.3",
            license: "MIT",
            authors: vec!["Tower Maintainers <team@tower-rs.com>"],
        },
        198 => LicenseInfo {
            name: "tower-http",
            version: "0.6.8",
            license: "MIT",
            authors: vec!["Tower Maintainers <team@tower-rs.com>"],
        },
        199 => LicenseInfo {
            name: "tower-layer",
            version: "0.3.3",
            license: "MIT",
            authors: vec!["Tower Maintainers <team@tower-rs.com>"],
        },
        200 => LicenseInfo {
            name: "tower-service",
            version: "0.3.3",
            license: "MIT",
            authors: vec!["Tower Maintainers <team@tower-rs.com>"],
        },
        201 => LicenseInfo {
            name: "tracing",
            version: "0.1.44",
            license: "MIT",
            authors: vec!["Eliza Weisman <eliza@buoyant.io>", "Tokio Contributors <team@tokio.rs>"],
        },
        202 => LicenseInfo {
            name: "tracing-core",
            version: "0.1.36",
            license: "MIT",
            authors: vec!["Tokio Contributors <team@tokio.rs>"],
        },
        203 => LicenseInfo {
            name: "try-lock",
            version: "0.2.5",
            license: "MIT",
            authors: vec!["Sean McArthur <sean@seanmonstar.com>"],
        },
        204 => LicenseInfo {
            name: "typemap-ors",
            version: "1.0.0",
            license: "MIT",
            authors: vec!["Jonathan Reem <jonathan.reem@gmail.com>", "Anton Whalley anton@venshare.com"],
        },
        205 => LicenseInfo {
            name: "unicode-ident",
            version: "1.0.24",
            license: "(MIT OR Apache-2.0) AND Unicode-3.0",
            authors: vec!["David Tolnay <dtolnay@gmail.com>"],
        },
        206 => LicenseInfo {
            name: "unicode-segmentation",
            version: "1.12.0",
            license: "MIT OR Apache-2.0",
            authors: vec!["kwantam <kwantam@gmail.com>", "Manish Goregaokar <manishsmail@gmail.com>"],
        },
        207 => LicenseInfo {
            name: "unicode-xid",
            version: "0.2.6",
            license: "MIT OR Apache-2.0",
            authors: vec!["erick.tryzelaar <erick.tryzelaar@gmail.com>", "kwantam <kwantam@gmail.com>", "Manish Goregaokar <manishsmail@gmail.com>"],
        },
        208 => LicenseInfo {
            name: "unsafe-any-ors",
            version: "1.0.0",
            license: "MIT",
            authors: vec!["Jonathan Reem <jonathan.reem@gmail.com>", "anton whalley anton@venshare.com"],
        },
        209 => LicenseInfo {
            name: "unsafe-libyaml",
            version: "0.2.11",
            license: "MIT",
            authors: vec!["David Tolnay <dtolnay@gmail.com>"],
        },
        210 => LicenseInfo {
            name: "untrusted",
            version: "0.9.0",
            license: "ISC",
            authors: vec!["Brian Smith <brian@briansmith.org>"],
        },
        211 => LicenseInfo {
            name: "url",
            version: "2.5.8",
            license: "MIT OR Apache-2.0",
            authors: vec!["The rust-url developers"],
        },
        212 => LicenseInfo {
            name: "utf8_iter",
            version: "1.0.4",
            license: "Apache-2.0 OR MIT",
            authors: vec!["Henri Sivonen <hsivonen@hsivonen.fi>"],
        },
        213 => LicenseInfo {
            name: "vcpkg",
            version: "0.2.15",
            license: "MIT/Apache-2.0",
            authors: vec!["Jim McGrath <jimmc2@gmail.com>"],
        },
        214 => LicenseInfo {
            name: "walkdir",
            version: "2.5.0",
            license: "Unlicense/MIT",
            authors: vec!["Andrew Gallant <jamslam@gmail.com>"],
        },
        215 => LicenseInfo {
            name: "want",
            version: "0.3.1",
            license: "MIT",
            authors: vec!["Sean McArthur <sean@seanmonstar.com>"],
        },
        216 => LicenseInfo {
            name: "wasi",
            version: "0.11.1+wasi-snapshot-preview1",
            license: "Apache-2.0 WITH LLVM-exception OR Apache-2.0 OR MIT",
            authors: vec!["The Cranelift Project Developers"],
        },
        217 => LicenseInfo {
            name: "wasip2",
            version: "1.0.2+wasi-0.2.9",
            license: "Apache-2.0 WITH LLVM-exception OR Apache-2.0 OR MIT",
            authors: vec![],
        },
        218 => LicenseInfo {
            name: "wasip3",
            version: "0.4.0+wasi-0.3.0-rc-2026-01-06",
            license: "Apache-2.0 WITH LLVM-exception OR Apache-2.0 OR MIT",
            authors: vec![],
        },
        219 => LicenseInfo {
            name: "wasm-bindgen",
            version: "0.2.108",
            license: "MIT OR Apache-2.0",
            authors: vec!["The wasm-bindgen Developers"],
        },
        220 => LicenseInfo {
            name: "wasm-bindgen-futures",
            version: "0.4.58",
            license: "MIT OR Apache-2.0",
            authors: vec!["The wasm-bindgen Developers"],
        },
        221 => LicenseInfo {
            name: "wasm-bindgen-macro",
            version: "0.2.108",
            license: "MIT OR Apache-2.0",
            authors: vec!["The wasm-bindgen Developers"],
        },
        222 => LicenseInfo {
            name: "wasm-bindgen-macro-support",
            version: "0.2.108",
            license: "MIT OR Apache-2.0",
            authors: vec!["The wasm-bindgen Developers"],
        },
        223 => LicenseInfo {
            name: "wasm-bindgen-shared",
            version: "0.2.108",
            license: "MIT OR Apache-2.0",
            authors: vec!["The wasm-bindgen Developers"],
        },
        224 => LicenseInfo {
            name: "wasm-encoder",
            version: "0.244.0",
            license: "Apache-2.0 WITH LLVM-exception OR Apache-2.0 OR MIT",
            authors: vec!["Nick Fitzgerald <fitzgen@gmail.com>"],
        },
        225 => LicenseInfo {
            name: "wasm-metadata",
            version: "0.244.0",
            license: "Apache-2.0 WITH LLVM-exception OR Apache-2.0 OR MIT",
            authors: vec![],
        },
        226 => LicenseInfo {
            name: "wasmparser",
            version: "0.244.0",
            license: "Apache-2.0 WITH LLVM-exception OR Apache-2.0 OR MIT",
            authors: vec!["Yury Delendik <ydelendik@mozilla.com>"],
        },
        227 => LicenseInfo {
            name: "web-sys",
            version: "0.3.85",
            license: "MIT OR Apache-2.0",
            authors: vec!["The wasm-bindgen Developers"],
        },
        228 => LicenseInfo {
            name: "web-time",
            version: "1.1.0",
            license: "MIT OR Apache-2.0",
            authors: vec![],
        },
        229 => LicenseInfo {
            name: "webpki-root-certs",
            version: "1.0.6",
            license: "CDLA-Permissive-2.0",
            authors: vec![],
        },
        230 => LicenseInfo {
            name: "winapi",
            version: "0.3.9",
            license: "MIT/Apache-2.0",
            authors: vec!["Peter Atashian <retep998@gmail.com>"],
        },
        231 => LicenseInfo {
            name: "winapi-i686-pc-windows-gnu",
            version: "0.4.0",
            license: "MIT/Apache-2.0",
            authors: vec!["Peter Atashian <retep998@gmail.com>"],
        },
        232 => LicenseInfo {
            name: "winapi-util",
            version: "0.1.11",
            license: "Unlicense OR MIT",
            authors: vec!["Andrew Gallant <jamslam@gmail.com>"],
        },
        233 => LicenseInfo {
            name: "winapi-x86_64-pc-windows-gnu",
            version: "0.4.0",
            license: "MIT/Apache-2.0",
            authors: vec!["Peter Atashian <retep998@gmail.com>"],
        },
        234 => LicenseInfo {
            name: "windows-core",
            version: "0.62.2",
            license: "MIT OR Apache-2.0",
            authors: vec![],
        },
        235 => LicenseInfo {
            name: "windows-implement",
            version: "0.60.2",
            license: "MIT OR Apache-2.0",
            authors: vec![],
        },
        236 => LicenseInfo {
            name: "windows-interface",
            version: "0.59.3",
            license: "MIT OR Apache-2.0",
            authors: vec![],
        },
        237 => LicenseInfo {
            name: "windows-link",
            version: "0.2.1",
            license: "MIT OR Apache-2.0",
            authors: vec![],
        },
        238 => LicenseInfo {
            name: "windows-registry",
            version: "0.6.1",
            license: "MIT OR Apache-2.0",
            authors: vec![],
        },
        239 => LicenseInfo {
            name: "windows-result",
            version: "0.4.1",
            license: "MIT OR Apache-2.0",
            authors: vec![],
        },
        240 => LicenseInfo {
            name: "windows-strings",
            version: "0.5.1",
            license: "MIT OR Apache-2.0",
            authors: vec![],
        },
        241 => LicenseInfo {
            name: "windows-sys",
            version: "0.45.0",
            license: "MIT OR Apache-2.0",
            authors: vec!["Microsoft"],
        },
        242 => LicenseInfo {
            name: "windows-sys",
            version: "0.52.0",
            license: "MIT OR Apache-2.0",
            authors: vec!["Microsoft"],
        },
        243 => LicenseInfo {
            name: "windows-sys",
            version: "0.60.2",
            license: "MIT OR Apache-2.0",
            authors: vec!["Microsoft"],
        },
        244 => LicenseInfo {
            name: "windows-sys",
            version: "0.61.2",
            license: "MIT OR Apache-2.0",
            authors: vec![],
        },
        245 => LicenseInfo {
            name: "windows-targets",
            version: "0.42.2",
            license: "MIT OR Apache-2.0",
            authors: vec!["Microsoft"],
        },
        246 => LicenseInfo {
            name: "windows-targets",
            version: "0.52.6",
            license: "MIT OR Apache-2.0",
            authors: vec!["Microsoft"],
        },
        247 => LicenseInfo {
            name: "windows-targets",
            version: "0.53.5",
            license: "MIT OR Apache-2.0",
            authors: vec![],
        },
        248 => LicenseInfo {
            name: "windows_aarch64_gnullvm",
            version: "0.42.2",
            license: "MIT OR Apache-2.0",
            authors: vec!["Microsoft"],
        },
        249 => LicenseInfo {
            name: "windows_aarch64_gnullvm",
            version: "0.52.6",
            license: "MIT OR Apache-2.0",
            authors: vec!["Microsoft"],
        },
        250 => LicenseInfo {
            name: "windows_aarch64_gnullvm",
            version: "0.53.1",
            license: "MIT OR Apache-2.0",
            authors: vec![],
        },
        251 => LicenseInfo {
            name: "windows_aarch64_msvc",
            version: "0.42.2",
            license: "MIT OR Apache-2.0",
            authors: vec!["Microsoft"],
        },
        252 => LicenseInfo {
            name: "windows_aarch64_msvc",
            version: "0.52.6",
            license: "MIT OR Apache-2.0",
            authors: vec!["Microsoft"],
        },
        253 => LicenseInfo {
            name: "windows_aarch64_msvc",
            version: "0.53.1",
            license: "MIT OR Apache-2.0",
            authors: vec![],
        },
        254 => LicenseInfo {
            name: "windows_i686_gnu",
            version: "0.42.2",
            license: "MIT OR Apache-2.0",
            authors: vec!["Microsoft"],
        },
        255 => LicenseInfo {
            name: "windows_i686_gnu",
            version: "0.52.6",
            license: "MIT OR Apache-2.0",
            authors: vec!["Microsoft"],
        },
        256 => LicenseInfo {
            name: "windows_i686_gnu",
            version: "0.53.1",
            license: "MIT OR Apache-2.0",
            authors: vec![],
        },
        257 => LicenseInfo {
            name: "windows_i686_gnullvm",
            version: "0.52.6",
            license: "MIT OR Apache-2.0",
            authors: vec!["Microsoft"],
        },
        258 => LicenseInfo {
            name: "windows_i686_gnullvm",
            version: "0.53.1",
            license: "MIT OR Apache-2.0",
            authors: vec![],
        },
        259 => LicenseInfo {
            name: "windows_i686_msvc",
            version: "0.42.2",
            license: "MIT OR Apache-2.0",
            authors: vec!["Microsoft"],
        },
        260 => LicenseInfo {
            name: "windows_i686_msvc",
            version: "0.52.6",
            license: "MIT OR Apache-2.0",
            authors: vec!["Microsoft"],
        },
        261 => LicenseInfo {
            name: "windows_i686_msvc",
            version: "0.53.1",
            license: "MIT OR Apache-2.0",
            authors: vec![],
        },
        262 => LicenseInfo {
            name: "windows_x86_64_gnu",
            version: "0.42.2",
            license: "MIT OR Apache-2.0",
            authors: vec!["Microsoft"],
        },
        263 => LicenseInfo {
            name: "windows_x86_64_gnu",
            version: "0.52.6",
            license: "MIT OR Apache-2.0",
            authors: vec!["Microsoft"],
        },
        264 => LicenseInfo {
            name: "windows_x86_64_gnu",
            version: "0.53.1",
            license: "MIT OR Apache-2.0",
            authors: vec![],
        },
        265 => LicenseInfo {
            name: "windows_x86_64_gnullvm",
            version: "0.42.2",
            license: "MIT OR Apache-2.0",
            authors: vec!["Microsoft"],
        },
        266 => LicenseInfo {
            name: "windows_x86_64_gnullvm",
            version: "0.52.6",
            license: "MIT OR Apache-2.0",
            authors: vec!["Microsoft"],
        },
        267 => LicenseInfo {
            name: "windows_x86_64_gnullvm",
            version: "0.53.1",
            license: "MIT OR Apache-2.0",
            authors: vec![],
        },
        268 => LicenseInfo {
            name: "windows_x86_64_msvc",
            version: "0.42.2",
            license: "MIT OR Apache-2.0",
            authors: vec!["Microsoft"],
        },
        269 => LicenseInfo {
            name: "windows_x86_64_msvc",
            version: "0.52.6",
            license: "MIT OR Apache-2.0",
            authors: vec!["Microsoft"],
        },
        270 => LicenseInfo {
            name: "windows_x86_64_msvc",
            version: "0.53.1",
            license: "MIT OR Apache-2.0",
            authors: vec![],
        },
        271 => LicenseInfo {
            name: "wit-bindgen",
            version: "0.51.0",
            license: "Apache-2.0 WITH LLVM-exception OR Apache-2.0 OR MIT",
            authors: vec!["Alex Crichton <alex@alexcrichton.com>"],
        },
        272 => LicenseInfo {
            name: "wit-bindgen-core",
            version: "0.51.0",
            license: "Apache-2.0 WITH LLVM-exception OR Apache-2.0 OR MIT",
            authors: vec!["Alex Crichton <alex@alexcrichton.com>"],
        },
        273 => LicenseInfo {
            name: "wit-bindgen-rust",
            version: "0.51.0",
            license: "Apache-2.0 WITH LLVM-exception OR Apache-2.0 OR MIT",
            authors: vec!["Alex Crichton <alex@alexcrichton.com>"],
        },
        274 => LicenseInfo {
            name: "wit-bindgen-rust-macro",
            version: "0.51.0",
            license: "Apache-2.0 WITH LLVM-exception OR Apache-2.0 OR MIT",
            authors: vec!["Alex Crichton <alex@alexcrichton.com>"],
        },
        275 => LicenseInfo {
            name: "wit-component",
            version: "0.244.0",
            license: "Apache-2.0 WITH LLVM-exception OR Apache-2.0 OR MIT",
            authors: vec!["Peter Huene <peter@huene.dev>"],
        },
        276 => LicenseInfo {
            name: "wit-parser",
            version: "0.244.0",
            license: "Apache-2.0 WITH LLVM-exception OR Apache-2.0 OR MIT",
            authors: vec!["Alex Crichton <alex@alexcrichton.com>"],
        },
        277 => LicenseInfo {
            name: "writeable",
            version: "0.6.2",
            license: "Unicode-3.0",
            authors: vec!["The ICU4X Project Developers"],
        },
        278 => LicenseInfo {
            name: "yoke",
            version: "0.8.1",
            license: "Unicode-3.0",
            authors: vec!["Manish Goregaokar <manishsmail@gmail.com>"],
        },
        279 => LicenseInfo {
            name: "yoke-derive",
            version: "0.8.1",
            license: "Unicode-3.0",
            authors: vec!["Manish Goregaokar <manishsmail@gmail.com>"],
        },
        280 => LicenseInfo {
            name: "zerocopy",
            version: "0.8.39",
            license: "BSD-2-Clause OR Apache-2.0 OR MIT",
            authors: vec!["Joshua Liebow-Feeser <joshlf@google.com>", "Jack Wrenn <jswrenn@amazon.com>"],
        },
        281 => LicenseInfo {
            name: "zerocopy-derive",
            version: "0.8.39",
            license: "BSD-2-Clause OR Apache-2.0 OR MIT",
            authors: vec!["Joshua Liebow-Feeser <joshlf@google.com>", "Jack Wrenn <jswrenn@amazon.com>"],
        },
        282 => LicenseInfo {
            name: "zerofrom",
            version: "0.1.6",
            license: "Unicode-3.0",
            authors: vec!["Manish Goregaokar <manishsmail@gmail.com>"],
        },
        283 => LicenseInfo {
            name: "zerofrom-derive",
            version: "0.1.6",
            license: "Unicode-3.0",
            authors: vec!["Manish Goregaokar <manishsmail@gmail.com>"],
        },
        284 => LicenseInfo {
            name: "zeroize",
            version: "1.8.2",
            license: "Apache-2.0 OR MIT",
            authors: vec!["The RustCrypto Project Developers"],
        },
        285 => LicenseInfo {
            name: "zerotrie",
            version: "0.2.3",
            license: "Unicode-3.0",
            authors: vec!["The ICU4X Project Developers"],
        },
        286 => LicenseInfo {
            name: "zerovec",
            version: "0.11.5",
            license: "Unicode-3.0",
            authors: vec!["The ICU4X Project Developers"],
        },
        287 => LicenseInfo {
            name: "zerovec-derive",
            version: "0.11.2",
            license: "Unicode-3.0",
            authors: vec!["Manish Goregaokar <manishsmail@gmail.com>"],
        },
        _ => LicenseInfo {
            name: "zmij",
            version: "1.0.21",
            license: "MIT",
            authors: vec!["David Tolnay <dtolnay@gmail.com>"],
        },
    }
}

/// Entries 0 to 49 of the list are those generated from the crates
/// the program is built from: name, version, license and authors.
pub proof fn lemma_generated_entries_0_49()
    ensures
        license_entry(0) == ("android_system_properties", "0.1.5", "MIT/Apache-2.0", seq!["Nicolas Silva <nical@fastmail.com>"]),
        license_entry(1) == ("anyhow", "1.0.102", "MIT OR Apache-2.0", seq!["David Tolnay <dtolnay@gmail.com>"]),
        license_entry(2) == ("arc-swap", "1.8.2", "MIT OR Apache-2.0", seq!["Michal 'vorner' Vaner <vorner@vorner.cz>"]),
        license_entry(3) == ("ascii", "1.1.0", "Apache-2.0 OR MIT", seq!["Thomas Bahn <thomas@thomas-bahn.net>", "Torbjørn Birch Moltu <t.b.moltu@lyse.net>", "Simon Sapin <simon.sapin@exyr.org>"]),
        license_entry(4) == ("atomic-waker", "1.1.2", "Apache-2.0 OR MIT", seq!["Stjepan Glavina <stjepang@gmail.com>", "Contributors to futures-rs"]),
        license_entry(5) == ("autocfg", "1.5.0", "Apache-2.0 OR MIT", seq!["Josh Stone <cuviper@gmail.com>"]),
        license_entry(6) == ("aws-lc-rs", "1.15.4", "ISC AND (Apache-2.0 OR ISC)", seq!["AWS-LibCrypto"]),
        license_entry(7) == ("aws-lc-sys", "0.37.1", "ISC AND (Apache-2.0 OR ISC) AND OpenSSL", seq!["AWS-LC"]),
        license_entry(8) == ("base64", "0.22.1", "MIT OR Apache-2.0", seq!["Marshall Pierce <marshall@mpierce.org>"]),
        license_entry(9) == ("bitflags", "2.11.0", "MIT OR Apache-2.0", seq!["The Rust Project Developers"]),
        license_entry(10) == ("bumpalo", "3.19.1", "MIT OR Apache-2.0", seq!["Nick Fitzgerald <fitzgen@gmail.com>"]),
        license_entry(11) == ("byteorder", "1.5.0", "Unlicense OR MIT", seq!["Andrew Gallant <jamslam@gmail.com>"]),
        license_entry(12) == ("bytes", "1.11.1", "MIT", seq!["Carl Lerche <me@carllerche.com>", "Sean McArthur <sean@seanmonstar.com>"]),
        license_entry(13) == ("camino", "1.2.2", "MIT OR Apache-2.0", seq!["Without Boats <saoirse@without.boats>", "Ashley Williams <ashley666ashley@gmail.com>", "Steve Klabnik <steve@steveklabnik.com>", "Rain <rain@sunshowers.io>"]),
        license_entry(14) == ("cargo-platform", "0.1.9", "MIT OR Apache-2.0", Seq::<&'static str>::empty()),
        license_entry(15) == ("cargo_metadata", "0.19.2", "MIT", seq!["Oliver Schneider <git-spam-no-reply9815368754983@oli-obk.de>"]),
        license_entry(16) == ("cc", "1.2.56", "MIT OR Apache-2.0", seq!["Alex Crichton <alex@alexcrichton.com>"]),
        license_entry(17) == ("cesu8", "1.1.0", "Apache-2.0/MIT", seq!["Eric Kidd <git@randomhacks.net>"]),
        license_entry(18) == ("cfg-if", "1.0.4", "MIT OR Apache-2.0", seq!["Alex Crichton <alex@alexcrichton.com>"]),
        license_entry(19) == ("cfg_aliases", "0.2.1", "MIT", seq!["Zicklag <zicklag@katharostech.com>"]),
        license_entry(20) == ("chacha20", "0.10.0", "MIT OR Apache-2.0", seq!["RustCrypto Developers"]),
        license_entry(21) == ("chrono", "0.4.43", "MIT OR Apache-2.0", Seq::<&'static str>::empty()),
        license_entry(22) == ("chunked_transfer", "1.5.0", "MIT OR Apache-2.0", seq!["Corey Farwell <coreyf@rwell.org>"]),
        license_entry(23) == ("cmake", "0.1.57", "MIT OR Apache-2.0", seq!["Alex Crichton <alex@alexcrichton.com>"]),
        license_entry(24) == ("colored", "3.1.1", "MPL-2.0", seq!["Thomas Wickham <mackwic@gmail.com>"]),
        license_entry(25) == ("combine", "4.6.7", "MIT", seq!["Markus Westerlind <marwes91@gmail.com>"]),
        license_entry(26) == ("core-foundation", "0.9.4", "MIT OR Apache-2.0", seq!["The Servo Project Developers"]),
        license_entry(27) == ("core-foundation", "0.10.1", "MIT OR Apache-2.0", seq!["The Servo Project Developers"]),
        license_entry(28) == ("core-foundation-sys", "0.8.7", "MIT OR Apache-2.0", seq!["The Servo Project Developers"]),
        license_entry(29) == ("cpufeatures", "0.3.0", "MIT OR Apache-2.0", seq!["RustCrypto Developers"]),
        license_entry(30) == ("darling", "0.20.11", "MIT", seq!["Ted Driggs <ted.driggs@outlook.com>"]),
        license_entry(31) == ("darling_core", "0.20.11", "MIT", seq!["Ted Driggs <ted.driggs@outlook.com>"]),
        license_entry(32) == ("darling_macro", "0.20.11", "MIT", seq!["Ted Driggs <ted.driggs@outlook.com>"]),
        license_entry(33) == ("derive_builder", "0.20.2", "MIT OR Apache-2.0", seq!["Colin Kiegel <kiegel@gmx.de>", "Pascal Hertleif <killercup@gmail.com>", "Jan-Erik Rediger <janerik@fnordig.de>", "Ted Driggs <ted.driggs@outlook.com>"]),
        license_entry(34) == ("derive_builder_core", "0.20.2", "MIT OR Apache-2.0", seq!["Colin Kiegel <kiegel@gmx.de>", "Pascal Hertleif <killercup@gmail.com>", "Jan-Erik Rediger <janerik@fnordig.de>", "Ted Driggs <ted.driggs@outlook.com>"]),
        license_entry(35) == ("derive_builder_macro", "0.20.2", "MIT OR Apache-2.0", seq!["Colin Kiegel <kiegel@gmx.de>", "Pascal Hertleif <killercup@gmail.com>", "Jan-Erik Rediger <janerik@fnordig.de>", "Ted Driggs <ted.driggs@outlook.com>"]),
        license_entry(36) == ("derive_more", "2.1.1", "MIT", seq!["Jelte Fennema <github-tech@jeltef.nl>"]),
        license_entry(37) == ("derive_more-impl", "2.1.1", "MIT", seq!["Jelte Fennema <github-tech@jeltef.nl>"]),
        license_entry(38) == ("destructure_traitobject", "0.2.0", "MIT/Apache-2.0", seq!["Jonathan Reem <jonathan.reem@gmail.com>", "Steven Fackler <sfackler@gmail.com>", "Alexander Regueiro <alexreg@me.com>", "Philip Peterson <philip.c.peterson@gmail.com>"]),
        license_entry(39) == ("displaydoc", "0.2.5", "MIT OR Apache-2.0", seq!["Jane Lusby <jlusby@yaah.dev>"]),
        license_entry(40) == ("dunce", "1.0.5", "CC0-1.0 OR MIT-0 OR Apache-2.0", seq!["Kornel <kornel@geekhood.net>"]),
        license_entry(41) == ("either", "1.15.0", "MIT OR Apache-2.0", seq!["bluss"]),
        license_entry(42) == ("encoding_rs", "0.8.35", "(Apache-2.0 OR MIT) AND BSD-3-Clause", seq!["Henri Sivonen <hsivonen@hsivonen.fi>"]),
        license_entry(43) == ("equivalent", "1.0.2", "Apache-2.0 OR MIT", Seq::<&'static str>::empty()),
        license_entry(44) == ("errno", "0.3.14", "MIT OR Apache-2.0", seq!["Chris Wong <lambda.fairy@gmail.com>", "Dan Gohman <dev@sunfishcode.online>"]),
        license_entry(45) == ("fastrand", "2.3.0", "Apache-2.0 OR MIT", seq!["Stjepan Glavina <stjepang@gmail.com>"]),
        license_entry(46) == ("find-msvc-tools", "0.1.9", "MIT OR Apache-2.0", Seq::<&'static str>::empty()),
        license_entry(47) == ("fnv", "1.0.7", "Apache-2.0 / MIT", seq!["Alex Crichton <alex@alexcrichton.com>"]),
        license_entry(48) == ("foldhash", "0.1.5", "Zlib", seq!["Orson Peters <orsonpeters@gmail.com>"]),
        license_entry(49) == ("foreign-types", "0.3.2", "MIT/Apache-2.0", seq!["Steven Fackler <sfackler@gmail.com>"]),
{
}

/// Entries 50 to 99 of the list are those generated from the crates
/// the program is built from: name, version, license and authors.
pub proof fn lemma_generated_entries_50_99()
    ensures
        license_entry(50) == ("foreign-types-shared", "0.1.1", "MIT/Apache-2.0", seq!["Steven Fackler <sfackler@gmail.com>"]),
        license_entry(51) == ("form_urlencoded", "1.2.2", "MIT OR Apache-2.0", seq!["The rust-url developers"]),
        license_entry(52) == ("fs_extra", "1.3.0", "MIT", seq!["Denis Kurilenko <webdesus@gmail.com>"]),
        license_entry(53) == ("futures-channel", "0.3.32", "MIT OR Apache-2.0", Seq::<&'static str>::empty()),
        license_entry(54) == ("futures-core", "0.3.32", "MIT OR Apache-2.0", Seq::<&'static str>::empty()),
        license_entry(55) == ("futures-io", "0.3.32", "MIT OR Apache-2.0", Seq::<&'static str>::empty()),
        license_entry(56) == ("futures-sink", "0.3.32", "MIT OR Apache-2.0", Seq::<&'static str>::empty()),
        license_entry(57) == ("futures-task", "0.3.32", "MIT OR Apache-2.0", Seq::<&'static str>::empty()),
        license_entry(58) == ("futures-util", "0.3.32", "MIT OR Apache-2.0", Seq::<&'static str>::empty()),
        license_entry(59) == ("getrandom", "0.2.17", "MIT OR Apache-2.0", seq!["The Rand Project Developers"]),
        license_entry(60) == ("getrandom", "0.3.4", "MIT OR Apache-2.0", seq!["The Rand Project Developers"]),
        license_entry(61) == ("getrandom", "0.4.1", "MIT OR Apache-2.0", seq!["The Rand Project Developers"]),
        license_entry(62) == ("getset", "0.1.6", "MIT", seq!["Ana Hobden <ana@hoverbear.org>", "John Baublitz <john.m.baublitz@gmail.com"]),
        license_entry(63) == ("h2", "0.4.13", "MIT", seq!["Carl Lerche <me@carllerche.com>", "Sean McArthur <sean@seanmonstar.com>"]),
        license_entry(64) == ("hashbrown", "0.15.5", "MIT OR Apache-2.0", seq!["Amanieu d'Antras <amanieu@gmail.com>"]),
        license_entry(65) == ("hashbrown", "0.16.1", "MIT OR Apache-2.0", seq!["Amanieu d'Antras <amanieu@gmail.com>"]),
        license_entry(66) == ("heck", "0.5.0", "MIT OR Apache-2.0", Seq::<&'static str>::empty()),
        license_entry(67) == ("http", "1.4.0", "MIT OR Apache-2.0", seq!["Alex Crichton <alex@alexcrichton.com>", "Carl Lerche <me@carllerche.com>", "Sean McArthur <sean@seanmonstar.com>"]),
        license_entry(68) == ("http-body", "1.0.1", "MIT", seq!["Carl Lerche <me@carllerche.com>", "Lucio Franco <luciofranco14@gmail.com>", "Sean McArthur <sean@seanmonstar.com>"]),
        license_entry(69) == ("http-body-util", "0.1.3", "MIT", seq!["Carl Lerche <me@carllerche.com>", "Lucio Franco <luciofranco14@gmail.com>", "Sean McArthur <sean@seanmonstar.com>"]),
        license_entry(70) == ("httparse", "1.10.1", "MIT OR Apache-2.0", seq!["Sean McArthur <sean@seanmonstar.com>"]),
        license_entry(71) == ("httpdate", "1.0.3", "MIT OR Apache-2.0", seq!["Pyfisch <pyfisch@posteo.org>"]),
        license_entry(72) == ("humantime", "2.3.0", "MIT OR Apache-2.0", Seq::<&'static str>::empty()),
        license_entry(73) == ("hyper", "1.8.1", "MIT", seq!["Sean McArthur <sean@seanmonstar.com>"]),
        license_entry(74) == ("hyper-rustls", "0.27.7", "Apache-2.0 OR ISC OR MIT", Seq::<&'static str>::empty()),
        license_entry(75) == ("hyper-tls", "0.6.0", "MIT/Apache-2.0", seq!["Sean McArthur <sean@seanmonstar.com>"]),
        license_entry(76) == ("hyper-util", "0.1.20", "MIT", seq!["Sean McArthur <sean@seanmonstar.com>"]),
        license_entry(77) == ("iana-time-zone", "0.1.65", "MIT OR Apache-2.0", seq!["Andrew Straw <strawman@astraw.com>", "René Kijewski <rene.kijewski@fu-berlin.de>", "Ryan Lopopolo <rjl@hyperbo.la>"]),
        license_entry(78) == ("iana-time-zone-haiku", "0.1.2", "MIT OR Apache-2.0", seq!["René Kijewski <crates.io@k6i.de>"]),
        license_entry(79) == ("icu_collections", "2.1.1", "Unicode-3.0", seq!["The ICU4X Project Developers"]),
        license_entry(80) == ("icu_locale_core", "2.1.1", "Unicode-3.0", seq!["The ICU4X Project Developers"]),
        license_entry(81) == ("icu_normalizer", "2.1.1", "Unicode-3.0", seq!["The ICU4X Project Developers"]),
        license_entry(82) == ("icu_normalizer_data", "2.1.1", "Unicode-3.0", seq!["The ICU4X Project Developers"]),
        license_entry(83) == ("icu_properties", "2.1.2", "Unicode-3.0", seq!["The ICU4X Project Developers"]),
        license_entry(84) == ("icu_properties_data", "2.1.2", "Unicode-3.0", seq!["The ICU4X Project Developers"]),
        license_entry(85) == ("icu_provider", "2.1.1", "Unicode-3.0", seq!["The ICU4X Project Developers"]),
        license_entry(86) == ("id-arena", "2.3.0", "MIT/Apache-2.0", seq!["Nick Fitzgerald <fitzgen@gmail.com>", "Aleksey Kladov <aleksey.kladov@gmail.com>"]),
        license_entry(87) == ("ident_case", "1.0.1", "MIT/Apache-2.0", seq!["Ted Driggs <ted.driggs@outlook.com>"]),
        license_entry(88) == ("idna", "1.1.0", "MIT OR Apache-2.0", seq!["The rust-url developers"]),
        license_entry(89) == ("idna_adapter", "1.2.1", "Apache-2.0 OR MIT", seq!["The rust-url developers"]),
        license_entry(90) == ("indexmap", "2.13.0", "Apache-2.0 OR MIT", Seq::<&'static str>::empty()),
        license_entry(91) == ("ipnet", "2.11.0", "MIT OR Apache-2.0", seq!["Kris Price <kris@krisprice.nz>"]),
        license_entry(92) == ("iri-string", "0.7.10", "MIT OR Apache-2.0", seq!["YOSHIOKA Takuma <nop_thread@nops.red>"]),
        license_entry(93) == ("itoa", "1.0.17", "MIT OR Apache-2.0", seq!["David Tolnay <dtolnay@gmail.com>"]),
        license_entry(94) == ("jni", "0.21.1", "MIT/Apache-2.0", seq!["Josh Chase <josh@prevoty.com>"]),
        license_entry(95) == ("jni-sys", "0.3.0", "MIT/Apache-2.0", seq!["Steven Fackler <sfackler@gmail.com>"]),
        license_entry(96) == ("jobserver", "0.1.34", "MIT OR Apache-2.0", seq!["Alex Crichton <alex@alexcrichton.com>"]),
        license_entry(97) == ("js-sys", "0.3.85", "MIT OR Apache-2.0", seq!["The wasm-bindgen Developers"]),
        license_entry(98) == ("leb128fmt", "0.1.0", "MIT OR Apache-2.0", seq!["Bryant Luk <code@bryantluk.com>"]),
        license_entry(99) == ("libc", "0.2.182", "MIT OR Apache-2.0", seq!["The Rust Project Developers"]),
{
}

/// Entries 100 to 149 of the list are those generated from the crates
/// the program is built from: name, version, license and authors.
pub proof fn lemma_generated_entries_100_149()
    ensures
        license_entry(100) == ("linux-raw-sys", "0.11.0", "Apache-2.0 WITH LLVM-exception OR Apache-2.0 OR MIT", seq!["Dan Gohman <dev@sunfishcode.online>"]),
        license_entry(101) == ("litemap", "0.8.1", "Unicode-3.0", seq!["The ICU4X Project Developers"]),
        license_entry(102) == ("local-ip-address", "0.6.10", "MIT OR Apache-2.0", seq!["Leo Borai <estebanborai@gmail.com>"]),
        license_entry(103) == ("lock_api", "0.4.14", "MIT OR Apache-2.0", seq!["Amanieu d'Antras <amanieu@gmail.com>"]),
        license_entry(104) == ("log", "0.4.29", "MIT OR Apache-2.0", seq!["The Rust Project Developers"]),
        license_entry(105) == ("log-mdc", "0.1.0", "MIT/Apache-2.0", seq!["Steven Fackler <sfackler@gmail.com>"]),
        license_entry(106) == ("log4rs", "1.4.0", "MIT OR Apache-2.0", seq!["Steven Fackler <sfackler@gmail.com>", "Evan Simmons <esims89@gmail.com>"]),
        license_entry(107) == ("lru-slab", "0.1.2", "MIT OR Apache-2.0 OR Zlib", seq!["Benjamin Saunders <ben.e.saunders@gmail.com>"]),
        license_entry(108) == ("memchr", "2.8.0", "Unlicense OR MIT", seq!["Andrew Gallant <jamslam@gmail.com>", "bluss"]),
        license_entry(109) == ("mime", "0.3.17", "MIT OR Apache-2.0", seq!["Sean McArthur <sean@seanmonstar.com>"]),
        license_entry(110) == ("mio", "1.1.1", "MIT", seq!["Carl Lerche <me@carllerche.com>", "Thomas de Zeeuw <thomasdezeeuw@gmail.com>", "Tokio Contributors <team@tokio.rs>"]),
        license_entry(111) == ("mock_instant", "0.6.0", "0BSD", seq!["museun <museun@outlook.com>"]),
        license_entry(112) == ("native-tls", "0.2.16", "MIT OR Apache-2.0", seq!["Steven Fackler <sfackler@gmail.com>"]),
        license_entry(113) == ("neli", "0.7.4", "BSD-3-Clause", seq!["John Baublitz <john.m.baublitz@gmail.com>"]),
        license_entry(114) == ("neli-proc-macros", "0.2.2", "BSD-3-Clause", seq!["John Baublitz <john.m.baublitz@gmail.com>"]),
        license_entry(115) == ("num-traits", "0.2.19", "MIT OR Apache-2.0", seq!["The Rust Project Developers"]),
        license_entry(116) == ("once_cell", "1.21.3", "MIT OR Apache-2.0", seq!["Aleksey Kladov <aleksey.kladov@gmail.com>"]),
        license_entry(117) == ("openssl", "0.10.75", "Apache-2.0", seq!["Steven Fackler <sfackler@gmail.com>"]),
        license_entry(118) == ("openssl-macros", "0.1.1", "MIT/Apache-2.0", Seq::<&'static str>::empty()),
        license_entry(119) == ("openssl-probe", "0.2.1", "MIT OR Apache-2.0", seq!["Alex Crichton <alex@alexcrichton.com>"]),
        license_entry(120) == ("openssl-sys", "0.9.111", "MIT", seq!["Alex Crichton <alex@alexcrichton.com>", "Steven Fackler <sfackler@gmail.com>"]),
        license_entry(121) == ("ordered-float", "2.10.1", "MIT", seq!["Jonathan Reem <jonathan.reem@gmail.com>", "Matt Brubeck <mbrubeck@limpet.net>"]),
        license_entry(122) == ("parking_lot", "0.12.5", "MIT OR Apache-2.0", seq!["Amanieu d'Antras <amanieu@gmail.com>"]),
        license_entry(123) == ("parking_lot_core", "0.9.12", "MIT OR Apache-2.0", seq!["Amanieu d'Antras <amanieu@gmail.com>"]),
        license_entry(124) == ("percent-encoding", "2.3.2", "MIT OR Apache-2.0", seq!["The rust-url developers"]),
        license_entry(125) == ("pin-project-lite", "0.2.16", "Apache-2.0 OR MIT", Seq::<&'static str>::empty()),
        license_entry(126) == ("pin-utils", "0.1.0", "MIT OR Apache-2.0", seq!["Josef Brandl <mail@josefbrandl.de>"]),
        license_entry(127) == ("pkg-config", "0.3.32", "MIT OR Apache-2.0", seq!["Alex Crichton <alex@alexcrichton.com>"]),
        license_entry(128) == ("positive_tool_rs", "0.7.0", "AGPL-3.0-only", Seq::<&'static str>::empty()),
        license_entry(129) == ("potential_utf", "0.1.4", "Unicode-3.0", seq!["The ICU4X Project Developers"]),
        license_entry(130) == ("ppv-lite86", "0.2.21", "MIT OR Apache-2.0", seq!["The CryptoCorrosion Contributors"]),
        license_entry(131) == ("prettyplease", "0.2.37", "MIT OR Apache-2.0", seq!["David Tolnay <dtolnay@gmail.com>"]),
        license_entry(132) == ("proc-macro-error-attr2", "2.0.0", "MIT OR Apache-2.0", seq!["CreepySkeleton <creepy-skeleton@yandex.ru>", "GnomedDev <david2005thomas@gmail.com>"]),
        license_entry(133) == ("proc-macro-error2", "2.0.1", "MIT OR Apache-2.0", seq!["CreepySkeleton <creepy-skeleton@yandex.ru>", "GnomedDev <david2005thomas@gmail.com>"]),
        license_entry(134) == ("proc-macro2", "1.0.106", "MIT OR Apache-2.0", seq!["David Tolnay <dtolnay@gmail.com>", "Alex Crichton <alex@alexcrichton.com>"]),
        license_entry(135) == ("quinn", "0.11.9", "MIT OR Apache-2.0", Seq::<&'static str>::empty()),
        license_entry(136) == ("quinn-proto", "0.11.13", "MIT OR Apache-2.0", Seq::<&'static str>::empty()),
        license_entry(137) == ("quinn-udp", "0.5.14", "MIT OR Apache-2.0", Seq::<&'static str>::empty()),
        license_entry(138) == ("quote", "1.0.44", "MIT OR Apache-2.0", seq!["David Tolnay <dtolnay@gmail.com>"]),
        license_entry(139) == ("r-efi", "5.3.0", "MIT OR Apache-2.0 OR LGPL-2.1-or-later", Seq::<&'static str>::empty()),
        license_entry(140) == ("rand", "0.9.2", "MIT OR Apache-2.0", seq!["The Rand Project Developers", "The Rust Project Developers"]),
        license_entry(141) == ("rand", "0.10.0", "MIT OR Apache-2.0", seq!["The Rand Project Developers", "The Rust Project Developers"]),
        license_entry(142) == ("rand_chacha", "0.9.0", "MIT OR Apache-2.0", seq!["The Rand Project Developers", "The Rust Project Developers", "The CryptoCorrosion Contributors"]),
        license_entry(143) == ("rand_core", "0.9.5", "MIT OR Apache-2.0", seq!["The Rand Project Developers", "The Rust Project Developers"]),
        license_entry(144) == ("rand_core", "0.10.0", "MIT OR Apache-2.0", seq!["The Rand Project Developers"]),
        license_entry(145) == ("redox_syscall", "0.5.18", "MIT", seq!["Jeremy Soller <jackpot51@gmail.com>"]),
        license_entry(146) == ("reqwest", "0.13.2", "MIT OR Apache-2.0", seq!["Sean McArthur <sean@seanmonstar.com>"]),
        license_entry(147) == ("ring", "0.17.14", "Apache-2.0 AND ISC", Seq::<&'static str>::empty()),
        license_entry(148) == ("rustc-hash", "2.1.1", "Apache-2.0 OR MIT", seq!["The Rust Project Developers"]),
        license_entry(149) == ("rustc_version", "0.4.1", "MIT OR Apache-2.0", Seq::<&'static str>::empty()),
{
}

/// Entries 150 to 199 of the list are those generated from the crates
/// the program is built from: name, version, license and authors.
pub proof fn lemma_generated_entries_150_199()
    ensures
        license_entry(150) == ("rustix", "1.1.3", "Apache-2.0 WITH LLVM-exception OR Apache-2.0 OR MIT", seq!["Dan Gohman <dev@sunfishcode.online>", "Jakub Konka <kubkon@jakubkonka.com>"]),
        license_entry(151) == ("rustls", "0.23.36", "Apache-2.0 OR ISC OR MIT", Seq::<&'static str>::empty()),
        license_entry(152) == ("rustls-native-certs", "0.8.3", "Apache-2.0 OR ISC OR MIT", Seq::<&'static str>::empty()),
        license_entry(153) == ("rustls-pki-types", "1.14.0", "MIT OR Apache-2.0", Seq::<&'static str>::empty()),
        license_entry(154) == ("rustls-platform-verifier", "0.6.2", "MIT OR Apache-2.0", Seq::<&'static str>::empty()),
        license_entry(155) == ("rustls-platform-verifier-android", "0.1.1", "MIT OR Apache-2.0", Seq::<&'static str>::empty()),
        license_entry(156) == ("rustls-webpki", "0.103.9", "ISC", Seq::<&'static str>::empty()),
        license_entry(157) == ("rustversion", "1.0.22", "MIT OR Apache-2.0", seq!["David Tolnay <dtolnay@gmail.com>"]),
        license_entry(158) == ("ryu", "1.0.23", "Apache-2.0 OR BSL-1.0", seq!["David Tolnay <dtolnay@gmail.com>"]),
        license_entry(159) == ("same-file", "1.0.6", "Unlicense/MIT", seq!["Andrew Gallant <jamslam@gmail.com>"]),
        license_entry(160) == ("schannel", "0.1.28", "MIT", seq!["Steven Fackler <sfackler@gmail.com>", "Steffen Butzer <steffen.butzer@outlook.com>"]),
        license_entry(161) == ("scopeguard", "1.2.0", "MIT OR Apache-2.0", seq!["bluss"]),
        license_entry(162) == ("security-framework", "3.6.0", "MIT OR Apache-2.0", seq!["Steven Fackler <sfackler@gmail.com>", "Kornel <kornel@geekhood.net>"]),
        license_entry(163) == ("security-framework-sys", "2.16.0", "MIT OR Apache-2.0", seq!["Steven Fackler <sfackler@gmail.com>", "Kornel <kornel@geekhood.net>"]),
        license_entry(164) == ("semver", "1.0.27", "MIT OR Apache-2.0", seq!["David Tolnay <dtolnay@gmail.com>"]),
        license_entry(165) == ("serde", "1.0.228", "MIT OR Apache-2.0", seq!["Erick Tryzelaar <erick.tryzelaar@gmail.com>", "David Tolnay <dtolnay@gmail.com>"]),
        license_entry(166) == ("serde-value", "0.7.0", "MIT", seq!["arcnmx"]),
        license_entry(167) == ("serde_core", "1.0.228", "MIT OR Apache-2.0", seq!["Erick Tryzelaar <erick.tryzelaar@gmail.com>", "David Tolnay <dtolnay@gmail.com>"]),
        license_entry(168) == ("serde_derive", "1.0.228", "MIT OR Apache-2.0", seq!["Erick Tryzelaar <erick.tryzelaar@gmail.com>", "David Tolnay <dtolnay@gmail.com>"]),
        license_entry(169) == ("serde_json", "1.0.149", "MIT OR Apache-2.0", seq!["Erick Tryzelaar <erick.tryzelaar@gmail.com>", "David Tolnay <dtolnay@gmail.com>"]),
        license_entry(170) == ("serde_yaml", "0.9.34+deprecated", "MIT OR Apache-2.0", seq!["David Tolnay <dtolnay@gmail.com>"]),
        license_entry(171) == ("shlex", "1.3.0", "MIT OR Apache-2.0", seq!["comex <comexk@gmail.com>", "Fenhl <fenhl@fenhl.net>", "Adrian Taylor <adetaylor@chromium.org>", "Alex Touchet <alextouchet@outlook.com>", "Daniel Parks <dp+git@oxidized.org>", "Garrett Berg <googberg@gmail.com>"]),
        license_entry(172) == ("slab", "0.4.12", "MIT", seq!["Carl Lerche <me@carllerche.com>"]),
        license_entry(173) == ("smallvec", "1.15.1", "MIT OR Apache-2.0", seq!["The Servo Project Developers"]),
        license_entry(174) == ("socket2", "0.6.2", "MIT OR Apache-2.0", seq!["Alex Crichton <alex@alexcrichton.com>", "Thomas de Zeeuw <thomasdezeeuw@gmail.com>"]),
        license_entry(175) == ("stable_deref_trait", "1.2.1", "MIT OR Apache-2.0", seq!["Robert Grosse <n210241048576@gmail.com>"]),
        license_entry(176) == ("strsim", "0.11.1", "MIT", seq!["Danny Guo <danny@dannyguo.com>", "maxbachmann <oss@maxbachmann.de>"]),
        license_entry(177) == ("subtle", "2.6.1", "BSD-3-Clause", seq!["Isis Lovecruft <isis@patternsinthevoid.net>", "Henry de Valence <hdevalence@hdevalence.ca>"]),
        license_entry(178) == ("syn", "2.0.116", "MIT OR Apache-2.0", seq!["David Tolnay <dtolnay@gmail.com>"]),
        license_entry(179) == ("sync_wrapper", "1.0.2", "Apache-2.0", seq!["Actyx AG <developer@actyx.io>"]),
        license_entry(180) == ("synstructure", "0.13.2", "MIT", seq!["Nika Layzell <nika@thelayzells.com>"]),
        license_entry(181) == ("system-configuration", "0.7.0", "MIT OR Apache-2.0", seq!["Mullvad VPN"]),
        license_entry(182) == ("system-configuration-sys", "0.6.0", "MIT OR Apache-2.0", seq!["Mullvad VPN"]),
        license_entry(183) == ("tempfile", "3.25.0", "MIT OR Apache-2.0", seq!["Steven Allen <steven@stebalien.com>", "The Rust Project Developers", "Ashley Mannix <ashleymannix@live.com.au>", "Jason White <me@jasonwhite.io>"]),
        license_entry(184) == ("thiserror", "1.0.69", "MIT OR Apache-2.0", seq!["David Tolnay <dtolnay@gmail.com>"]),
        license_entry(185) == ("thiserror", "2.0.18", "MIT OR Apache-2.0", seq!["David Tolnay <dtolnay@gmail.com>"]),
        license_entry(186) == ("thiserror-impl", "1.0.69", "MIT OR Apache-2.0", seq!["David Tolnay <dtolnay@gmail.com>"]),
        license_entry(187) == ("thiserror-impl", "2.0.18", "MIT OR Apache-2.0", seq!["David Tolnay <dtolnay@gmail.com>"]),
        license_entry(188) == ("thread-id", "5.1.0", "MIT OR Apache-2.0", seq!["Ruud van Asseldonk <dev@veniogames.com>"]),
        license_entry(189) == ("tiny_http", "0.12.0", "MIT OR Apache-2.0", seq!["pierre.krieger1708@gmail.com", "Corey Farwell <coreyf@rwell.org>"]),
        license_entry(190) == ("tinystr", "0.8.2", "Unicode-3.0", seq!["The ICU4X Project Developers"]),
        license_entry(191) == ("tinyvec", "1.10.0", "Zlib OR Apache-2.0 OR MIT", seq!["Lokathor <zefria@gmail.com>"]),
        license_entry(192) == ("tinyvec_macros", "0.1.1", "MIT OR Apache-2.0 OR Zlib", seq!["Soveu <marx.tomasz@gmail.com>"]),
        license_entry(193) == ("tokio", "1.49.0", "MIT", seq!["Tokio Contributors <team@tokio.rs>"]),
        license_entry(194) == ("tokio-native-tls", "0.3.1", "MIT", seq!["Tokio Contributors <team@tokio.rs>"]),
        license_entry(195) == ("tokio-rustls", "0.26.4", "MIT OR Apache-2.0", Seq::<&'static str>::empty()),
        license_entry(196) == ("tokio-util", "0.7.18", "MIT", seq!["Tokio Contributors <team@tokio.rs>"]),
        license_entry(197) == ("tower", "0.5.3", "MIT", seq!["Tower Maintainers <team@tower-rs.com>"]),
        license_entry(198) == ("tower-http", "0.6.8", "MIT", seq!["Tower Maintainers <team@tower-rs.com>"]),
        license_entry(199) == ("tower-layer", "0.3.3", "MIT", seq!["Tower Maintainers <team@tower-rs.com>"]),
{
}

/// Entries 200 to 249 of the list are those generated from the crates
/// the program is built from: name, version, license and authors.
pub proof fn lemma_generated_entries_200_249()
    ensures
        license_entry(200) == ("tower-service", "0.3.3", "MIT", seq!["Tower Maintainers <team@tower-rs.com>"]),
        license_entry(201) == ("tracing", "0.1.44", "MIT", seq!["Eliza Weisman <eliza@buoyant.io>", "Tokio Contributors <team@tokio.rs>"]),
        license_entry(202) == ("tracing-core", "0.1.36", "MIT", seq!["Tokio Contributors <team@tokio.rs>"]),
        license_entry(203) == ("try-lock", "0.2.5", "MIT", seq!["Sean McArthur <sean@seanmonstar.com>"]),
        license_entry(204) == ("typemap-ors", "1.0.0", "MIT", seq!["Jonathan Reem <jonathan.reem@gmail.com>", "Anton Whalley anton@venshare.com"]),
        license_entry(205) == ("unicode-ident", "1.0.24", "(MIT OR Apache-2.0) AND Unicode-3.0", seq!["David Tolnay <dtolnay@gmail.com>"]),
        license_entry(206) == ("unicode-segmentation", "1.12.0", "MIT OR Apache-2.0", seq!["kwantam <kwantam@gmail.com>", "Manish Goregaokar <manishsmail@gmail.com>"]),
        license_entry(207) == ("unicode-xid", "0.2.6", "MIT OR Apache-2.0", seq!["erick.tryzelaar <erick.tryzelaar@gmail.com>", "kwantam <kwantam@gmail.com>", "Manish Goregaokar <manishsmail@gmail.com>"]),
        license_entry(208) == ("unsafe-any-ors", "1.0.0", "MIT", seq!["Jonathan Reem <jonathan.reem@gmail.com>", "anton whalley anton@venshare.com"]),
        license_entry(209) == ("unsafe-libyaml", "0.2.11", "MIT", seq!["David Tolnay <dtolnay@gmail.com>"]),
        license_entry(210) == ("untrusted", "0.9.0", "ISC", seq!["Brian Smith <brian@briansmith.org>"]),
        license_entry(211) == ("url", "2.5.8", "MIT OR Apache-2.0", seq!["The rust-url developers"]),
        license_entry(212) == ("utf8_iter", "1.0.4", "Apache-2.0 OR MIT", seq!["Henri Sivonen <hsivonen@hsivonen.fi>"]),
        license_entry(213) == ("vcpkg", "0.2.15", "MIT/Apache-2.0", seq!["Jim McGrath <jimmc2@gmail.com>"]),
        license_entry(214) == ("walkdir", "2.5.0", "Unlicense/MIT", seq!["Andrew Gallant <jamslam@gmail.com>"]),
        license_entry(215) == ("want", "0.3.1", "MIT", seq!["Sean McArthur <sean@seanmonstar.com>"]),
        license_entry(216) == ("wasi", "0.11.1+wasi-snapshot-preview1", "Apache-2.0 WITH LLVM-exception OR Apache-2.0 OR MIT", seq!["The Cranelift Project Developers"]),
        license_entry(217) == ("wasip2", "1.0.2+wasi-0.2.9", "Apache-2.0 WITH LLVM-exception OR Apache-2.0 OR MIT", Seq::<&'static str>::empty()),
        license_entry(218) == ("wasip3", "0.4.0+wasi-0.3.0-rc-2026-01-06", "Apache-2.0 WITH LLVM-exception OR Apache-2.0 OR MIT", Seq::<&'static str>::empty()),
        license_entry(219) == ("wasm-bindgen", "0.2.108", "MIT OR Apache-2.0", seq!["The wasm-bindgen Developers"]),
        license_entry(220) == ("wasm-bindgen-futures", "0.4.58", "MIT OR Apache-2.0", seq!["The wasm-bindgen Developers"]),
        license_entry(221) == ("wasm-bindgen-macro", "0.2.108", "MIT OR Apache-2.0", seq!["The wasm-bindgen Developers"]),
        license_entry(222) == ("wasm-bindgen-macro-support", "0.2.108", "MIT OR Apache-2.0", seq!["The wasm-bindgen Developers"]),
        license_entry(223) == ("wasm-bindgen-shared", "0.2.108", "MIT OR Apache-2.0", seq!["The wasm-bindgen Developers"]),
        license_entry(224) == ("wasm-encoder", "0.244.0", "Apache-2.0 WITH LLVM-exception OR Apache-2.0 OR MIT", seq!["Nick Fitzgerald <fitzgen@gmail.com>"]),
        license_entry(225) == ("wasm-metadata", "0.244.0", "Apache-2.0 WITH LLVM-exception OR Apache-2.0 OR MIT", Seq::<&'static str>::empty()),
        license_entry(226) == ("wasmparser", "0.244.0", "Apache-2.0 WITH LLVM-exception OR Apache-2.0 OR MIT", seq!["Yury Delendik <ydelendik@mozilla.com>"]),
        license_entry(227) == ("web-sys", "0.3.85", "MIT OR Apache-2.0", seq!["The wasm-bindgen Developers"]),
        license_entry(228) == ("web-time", "1.1.0", "MIT OR Apache-2.0", Seq::<&'static str>::empty()),
        license_entry(229) == ("webpki-root-certs", "1.0.6", "CDLA-Permissive-2.0", Seq::<&'static str>::empty()),
        license_entry(230) == ("winapi", "0.3.9", "MIT/Apache-2.0", seq!["Peter Atashian <retep998@gmail.com>"]),
        license_entry(231) == ("winapi-i686-pc-windows-gnu", "0.4.0", "MIT/Apache-2.0", seq!["Peter Atashian <retep998@gmail.com>"]),
        license_entry(232) == ("winapi-util", "0.1.11", "Unlicense OR MIT", seq!["Andrew Gallant <jamslam@gmail.com>"]),
        license_entry(233) == ("winapi-x86_64-pc-windows-gnu", "0.4.0", "MIT/Apache-2.0", seq!["Peter Atashian <retep998@gmail.com>"]),
        license_entry(234) == ("windows-core", "0.62.2", "MIT OR Apache-2.0", Seq::<&'static str>::empty()),
        license_entry(235) == ("windows-implement", "0.60.2", "MIT OR Apache-2.0", Seq::<&'static str>::empty()),
        license_entry(236) == ("windows-interface", "0.59.3", "MIT OR Apache-2.0", Seq::<&'static str>::empty()),
        license_entry(237) == ("windows-link", "0.2.1", "MIT OR Apache-2.0", Seq::<&'static str>::empty()),
        license_entry(238) == ("windows-registry", "0.6.1", "MIT OR Apache-2.0", Seq::<&'static str>::empty()),
        license_entry(239) == ("windows-result", "0.4.1", "MIT OR Apache-2.0", Seq::<&'static str>::empty()),
        license_entry(240) == ("windows-strings", "0.5.1", "MIT OR Apache-2.0", Seq::<&'static str>::empty()),
        license_entry(241) == ("windows-sys", "0.45.0", "MIT OR Apache-2.0", seq!["Microsoft"]),
        license_entry(242) == ("windows-sys", "0.52.0", "MIT OR Apache-2.0", seq!["Microsoft"]),
        license_entry(243) == ("windows-sys", "0.60.2", "MIT OR Apache-2.0", seq!["Microsoft"]),
        license_entry(244) == ("windows-sys", "0.61.2", "MIT OR Apache-2.0", Seq::<&'static str>::empty()),
        license_entry(245) == ("windows-targets", "0.42.2", "MIT OR Apache-2.0", seq!["Microsoft"]),
        license_entry(246) == ("windows-targets", "0.52.6", "MIT OR Apache-2.0", seq!["Microsoft"]),
        license_entry(247) == ("windows-targets", "0.53.5", "MIT OR Apache-2.0", Seq::<&'static str>::empty()),
        license_entry(248) == ("windows_aarch64_gnullvm", "0.42.2", "MIT OR Apache-2.0", seq!["Microsoft"]),
        license_entry(249) == ("windows_aarch64_gnullvm", "0.52.6", "MIT OR Apache-2.0", seq!["Microsoft"]),
{
}

/// Entries 250 to 288 of the list are those generated from the crates
/// the program is built from: name, version, license and authors.
pub proof fn lemma_generated_entries_250_288()
    ensures
        license_entry(250) == ("windows_aarch64_gnullvm", "0.53.1", "MIT OR Apache-2.0", Seq::<&'static str>::empty()),
        license_entry(251) == ("windows_aarch64_msvc", "0.42.2", "MIT OR Apache-2.0", seq!["Microsoft"]),
        license_entry(252) == ("windows_aarch64_msvc", "0.52.6", "MIT OR Apache-2.0", seq!["Microsoft"]),
        license_entry(253) == ("windows_aarch64_msvc", "0.53.1", "MIT OR Apache-2.0", Seq::<&'static str>::empty()),
        license_entry(254) == ("windows_i686_gnu", "0.42.2", "MIT OR Apache-2.0", seq!["Microsoft"]),
        license_entry(255) == ("windows_i686_gnu", "0.52.6", "MIT OR Apache-2.0", seq!["Microsoft"]),
        license_entry(256) == ("windows_i686_gnu", "0.53.1", "MIT OR Apache-2.0", Seq::<&'static str>::empty()),
        license_entry(257) == ("windows_i686_gnullvm", "0.52.6", "MIT OR Apache-2.0", seq!["Microsoft"]),
        license_entry(258) == ("windows_i686_gnullvm", "0.53.1", "MIT OR Apache-2.0", Seq::<&'static str>::empty()),
        license_entry(259) == ("windows_i686_msvc", "0.42.2", "MIT OR Apache-2.0", seq!["Microsoft"]),
        license_entry(260) == ("windows_i686_msvc", "0.52.6", "MIT OR Apache-2.0", seq!["Microsoft"]),
        license_entry(261) == ("windows_i686_msvc", "0.53.1", "MIT OR Apache-2.0", Seq::<&'static str>::empty()),
        license_entry(262) == ("windows_x86_64_gnu", "0.42.2", "MIT OR Apache-2.0", seq!["Microsoft"]),
        license_entry(263) == ("windows_x86_64_gnu", "0.52.6", "MIT OR Apache-2.0", seq!["Microsoft"]),
        license_entry(264) == ("windows_x86_64_gnu", "0.53.1", "MIT OR Apache-2.0", Seq::<&'static str>::empty()),
        license_entry(265) == ("windows_x86_64_gnullvm", "0.42.2", "MIT OR Apache-2.0", seq!["Microsoft"]),
        license_entry(266) == ("windows_x86_64_gnullvm", "0.52.6", "MIT OR Apache-2.0", seq!["Microsoft"]),
        license_entry(267) == ("windows_x86_64_gnullvm", "0.53.1", "MIT OR Apache-2.0", Seq::<&'static str>::empty()),
        license_entry(268) == ("windows_x86_64_msvc", "0.42.2", "MIT OR Apache-2.0", seq!["Microsoft"]),
        license_entry(269) == ("windows_x86_64_msvc", "0.52.6", "MIT OR Apache-2.0", seq!["Microsoft"]),
        license_entry(270) == ("windows_x86_64_msvc", "0.53.1", "MIT OR Apache-2.0", Seq::<&'static str>::empty()),
        license_entry(271) == ("wit-bindgen", "0.51.0", "Apache-2.0 WITH LLVM-exception OR Apache-2.0 OR MIT", seq!["Alex Crichton <alex@alexcrichton.com>"]),
        license_entry(272) == ("wit-bindgen-core", "0.51.0", "Apache-2.0 WITH LLVM-exception OR Apache-2.0 OR MIT", seq!["Alex Crichton <alex@alexcrichton.com>"]),
        license_entry(273) == ("wit-bindgen-rust", "0.51.0", "Apache-2.0 WITH LLVM-exception OR Apache-2.0 OR MIT", seq!["Alex Crichton <alex@alexcrichton.com>"]),
        license_entry(274) == ("wit-bindgen-rust-macro", "0.51.0", "Apache-2.0 WITH LLVM-exception OR Apache-2.0 OR MIT", seq!["Alex Crichton <alex@alexcrichton.com>"]),
        license_entry(275) == ("wit-component", "0.244.0", "Apache-2.0 WITH LLVM-exception OR Apache-2.0 OR MIT", seq!["Peter Huene <peter@huene.dev>"]),
        license_entry(276) == ("wit-parser", "0.244.0", "Apache-2.0 WITH LLVM-exception OR Apache-2.0 OR MIT", seq!["Alex Crichton <alex@alexcrichton.com>"]),
        license_entry(277) == ("writeable", "0.6.2", "Unicode-3.0", seq!["The ICU4X Project Developers"]),
        license_entry(278) == ("yoke", "0.8.1", "Unicode-3.0", seq!["Manish Goregaokar <manishsmail@gmail.com>"]),
        license_entry(279) == ("yoke-derive", "0.8.1", "Unicode-3.0", seq!["Manish Goregaokar <manishsmail@gmail.com>"]),
        license_entry(280) == ("zerocopy", "0.8.39", "BSD-2-Clause OR Apache-2.0 OR MIT", seq!["Joshua Liebow-Feeser <joshlf@google.com>", "Jack Wrenn <jswrenn@amazon.com>"]),
        license_entry(281) == ("zerocopy-derive", "0.8.39", "BSD-2-Clause OR Apache-2.0 OR MIT", seq!["Joshua Liebow-Feeser <joshlf@google.com>", "Jack Wrenn <jswrenn@amazon.com>"]),
        license_entry(282) == ("zerofrom", "0.1.6", "Unicode-3.0", seq!["Manish Goregaokar <manishsmail@gmail.com>"]),
        license_entry(283) == ("zerofrom-derive", "0.1.6", "Unicode-3.0", seq!["Manish Goregaokar <manishsmail@gmail.com>"]),
        license_entry(284) == ("zeroize", "1.8.2", "Apache-2.0 OR MIT", seq!["The RustCrypto Project Developers"]),
        license_entry(285) == ("zerotrie", "0.2.3", "Unicode-3.0", seq!["The ICU4X Project Developers"]),
        license_entry(286) == ("zerovec", "0.11.5", "Unicode-3.0", seq!["The ICU4X Project Developers"]),
        license_entry(287) == ("zerovec-derive", "0.11.2", "Unicode-3.0", seq!["Manish Goregaokar <manishsmail@gmail.com>"]),
        license_entry(288) == ("zmij", "1.0.21", "MIT", seq!["David Tolnay <dtolnay@gmail.com>"]),
{
}

/// The list of the licenses, in order.
pub fn get_licenses() -> (r: Vec<LicenseInfo>)
    ensures
        r@.len() == LICENSE_COUNT,
        forall|i: int| 0 <= i < LICENSE_COUNT ==> license_view(#[trigger] r@[i]) == license_entry(i),
{
    let mut r: Vec<LicenseInfo> = Vec::new();
    let mut k: usize = 0;
    while k < LICENSE_COUNT
        invariant
            k <= LICENSE_COUNT,
            r@.len() == k,
            forall|i: int| 0 <= i < k ==> license_view(#[trigger] r@[i]) == license_entry(i),
        decreases LICENSE_COUNT - k,
    {
        r.push(license_at(k));
        k = k + 1;
    }
    r
}

} // verus!
