//! Kütüphanenin bütünü için geçerli yasalar: bir turda söylenenlerin sınırı, kanal başına
//! tek cevap, etiketin her zaman cevaplanması, sessiz sohbetin kapanması, geçmiş ve puan
//! sınırları, akışın Discord'a dökülen mesajlarının boyu.
use vstd::prelude::*;
use crate::ayarlar::{ISTEK_ESIGI, MESAJ_SINIRI, PATLAMA_SINIRI, SOHBET_BOYU, SOHBET_ZAMAN_ASIMI};
use crate::bolme::{bol_kalan, bol_kayipsiz, lemma_bol_kalan_kirpik, parcalar};
use crate::gunluk::{bilgi_eklenmis, etiket_eklenmis, sinirla};
use crate::kapanis::{acik_aktivite, kapanacaklar, yorumsuz_haberler};
use crate::karar::{isteklilik_esigi_spec, isteklilik_karari_spec, katilim_spec, kullanici_eklenmis, Cesaret};
use vstd::seq_lib::lemma_flatten_concat;
use crate::akis::{akis_gorunum_spec, akis_kesiti_spec, kod_blogu, kod_bloklari_spec, DusunmeKip};
use crate::metin::{
    ayir, basla, birlestir, bosluk_mu, daralt, degistir, dolu, kelime_boyu, kelimeler, kirp, lemma_kelime_boyu,
    gecmez, lemma_ayir_ayracsiz, satirlar,
};
use crate::yardimci::{dusunce_sayaci_spec, ondalik, spoiler_spec};
use crate::protokol::{
    bos_cevap, cevap_parcala_spec, geri_yazilir_cevap, lemma_protokol_geri_cozulur, lemma_satirlar_gecmez,
    mesaj_parcalari, numarali, protokol_metni_spec, satir_adimi, satirlari_isle, CevapModeli,
};
use crate::yardimci::kucult_spec;
use crate::sohbet::{Durum, Rol};
use crate::gundem::{entries_spec, lemma_duzgunler_geri_okunur, lemma_girdiler_duzgun};
use crate::tur::{tur_adimi_spec, TurOlayi};

verus! {

// ---------- bir turun satırları ----------

proof fn lemma_satirlari_isle(xs: Seq<Seq<char>>, liste: bool)
    ensures
        satirlari_isle(xs, liste).satirlar.len() <= PATLAMA_SINIRI,
        satirlari_isle(xs, liste).satirlar.no_duplicates(),
    decreases xs.len(),
{
    if xs.len() > 0 {
        lemma_satirlari_isle(xs.drop_last(), liste);
        let st = satirlari_isle(xs.drop_last(), liste);
        let yeni = satir_adimi(st, xs.last(), liste);
        if yeni.satirlar.len() == st.satirlar.len() + 1 {
            let t = yeni.satirlar.last();
            assert(!st.satirlar.contains(t));
            assert forall|i: int, j: int|
                0 <= i < yeni.satirlar.len() && 0 <= j < yeni.satirlar.len() && i != j implies yeni.satirlar[i]
                != yeni.satirlar[j] by {
                if i < st.satirlar.len() && j < st.satirlar.len() {
                    assert(yeni.satirlar[i] == st.satirlar[i] && yeni.satirlar[j] == st.satirlar[j]);
                } else if i == st.satirlar.len() {
                    assert(yeni.satirlar[j] == st.satirlar[j]);
                    assert(st.satirlar.contains(st.satirlar[j]));
                } else {
                    assert(yeni.satirlar[i] == st.satirlar[i]);
                    assert(st.satirlar.contains(st.satirlar[i]));
                }
            }
        } else {
            assert(yeni.satirlar == st.satirlar);
        }
    } else {
        assert(bos_cevap().satirlar.len() == 0);
    }
}

proof fn lemma_duzlestirme(xss: Seq<Seq<Seq<char>>>)
    requires
        forall|i: int, j: int|
            0 <= i < xss.len() && 0 <= j < xss[i].len() ==> 0 < (#[trigger] xss[i][j]).len()
                <= MESAJ_SINIRI,
    ensures
        forall|k: int| 0 <= k < xss.flatten().len() ==> 0 < (#[trigger] xss.flatten()[k]).len() <= MESAJ_SINIRI,
    decreases xss.len(),
{
    if xss.len() > 0 {
        let ilk = xss.first();
        let geri = xss.drop_first();
        assert forall|i: int, j: int| 0 <= i < geri.len() && 0 <= j < geri[i].len() implies 0 < (#[trigger] geri[i][j]).len()
            <= MESAJ_SINIRI by {
            assert(geri[i] == xss[i + 1]);
        }
        lemma_duzlestirme(geri);
        let f = xss.flatten();
        assert(f == ilk + geri.flatten());
        assert forall|k: int| 0 <= k < f.len() implies 0 < (#[trigger] f[k]).len() <= MESAJ_SINIRI by {
            if k < ilk.len() {
                assert(f[k] == xss[0][k]);
            } else {
                assert(f[k] == geri.flatten()[k - ilk.len()]);
            }
        }
    }
}

/// Bir turda en çok dört satır söylenir ve aynı satır iki kez söylenmez; 1900 karakteri
/// aşan satır bölünür: giden her mesaj boş değildir ve en çok 1900 karakterdir.
pub proof fn tur_satir_siniri(metin: Seq<char>)
    ensures
        ({
            let xs = ayir(metin, '\n');
            let st = satirlari_isle(xs, numarali(xs) >= 2);
            &&& st.satirlar.len() <= PATLAMA_SINIRI
            &&& st.satirlar.no_duplicates()
        }),
        forall|i: int|
            0 <= i < cevap_parcala_spec(metin).satirlar.len() ==> 0 < (
            #[trigger] cevap_parcala_spec(metin).satirlar[i]).len() <= MESAJ_SINIRI,
{
    let xs = ayir(metin, '\n');
    let liste = numarali(xs) >= 2;
    lemma_satirlari_isle(xs, liste);
    let st = satirlari_isle(xs, liste);
    let xss = st.satirlar.map_values(|s: Seq<char>| mesaj_parcalari(s));
    assert forall|i: int, j: int| 0 <= i < xss.len() && 0 <= j < xss[i].len() implies 0 < (#[trigger] xss[i][j]).len()
        <= MESAJ_SINIRI by {
        bol_kayipsiz(st.satirlar[i], MESAJ_SINIRI as nat);
        assert(xss[i] == parcalar(st.satirlar[i], MESAJ_SINIRI as nat));
    }
    lemma_duzlestirme(xss);
}

// ---------- kanal başına tek cevap ----------

/// Kanalda cevap üretilirken (kilit alınmışken) aynı kanal için ikinci bir tur başlayamaz.
pub proof fn kanal_basina_tek_cevap(once: Durum, sonra: Durum, kanal: u64)
    requires
        sonra.mesgul@ == once.mesgul@.insert(kanal),
    ensures
        !(sonra.sohbetler@.contains_key(kanal) && !sonra.mesgul@.contains(kanal)),
{
}

// ---------- katılım ----------

/// Etiketlenince, adı geçince ya da mesajına yanıt verilince (ya da az önce konuştuğu kişi
/// yazınca) isteklilikten bağımsız olarak sohbete katılır.
pub proof fn etiket_her_zaman_cevaplanir(etiketlendi: bool, diyalog: bool, degerlendirme: Option<bool>)
    requires
        etiketlendi || diyalog,
    ensures
        katilim_spec(etiketlendi, diyalog, degerlendirme),
{
}

/// Değerlendirilmeyen (süre sınırına takılan) mesaja, etiket ya da süren diyalog yoksa
/// katılınmaz.
pub proof fn degerlendirilmeyene_katilinmaz(etiketlendi: bool, diyalog: bool)
    requires
        !etiketlendi && !diyalog,
    ensures
        !katilim_spec(etiketlendi, diyalog, None),
{
}

/// Etiket ya da süren diyalog yoksa, isteklilik değerlendirilmiş mesaja katılma kararı tam
/// olarak değerlendirmenin sonucudur: puan eşiği geçmediyse katılınmaz (mesaj geçmişe girer
/// ama cevap gitmez), geçtiyse katılınır.
pub proof fn degerlendirilene_sonucu_kadar_katilinir(etiketlendi: bool, diyalog: bool, gecti: bool)
    requires
        !etiketlendi && !diyalog,
    ensures
        katilim_spec(etiketlendi, diyalog, Some(gecti)) == gecti,
        !katilim_spec(etiketlendi, diyalog, Some(false)),
        katilim_spec(etiketlendi, diyalog, Some(true)),
{
}

/// Katılma eşiği olağan evrede `ISTEK_ESIGI`dir; çekingen evrede bir fazla, rahat evrede bir
/// eksiktir; yolculuk sırasında hangi evrede olursa olsun tam iki artar.
pub proof fn esik_evreye_ve_yolculuga_gore(cesaret: Cesaret)
    ensures
        isteklilik_esigi_spec(Cesaret::Olagan, false) == ISTEK_ESIGI,
        isteklilik_esigi_spec(Cesaret::Dusuk, false) == ISTEK_ESIGI + 1,
        isteklilik_esigi_spec(Cesaret::Yuksek, false) == ISTEK_ESIGI - 1,
        isteklilik_esigi_spec(cesaret, true) == isteklilik_esigi_spec(cesaret, false) + 2,
        isteklilik_esigi_spec(Cesaret::Yuksek, false) < isteklilik_esigi_spec(Cesaret::Olagan, false)
            < isteklilik_esigi_spec(Cesaret::Dusuk, false),
{
}

/// Puan geldiyse zar hiçbir şeyi değiştirmez: eşiğe eşit ya da üstündeki puan katılır,
/// altındaki katılmaz; puan gelmediyse karar zarındır. Etiketsiz, diyalogsuz mesaja katılma
/// kararı böylece puanın eşiği geçip geçmediğidir; yolda eşik iki artar.
pub proof fn puan_esigi_gecerse_katilinir(p: u8, esik: int, zar: bool, cesaret: Cesaret)
    ensures
        isteklilik_karari_spec(Some(p), esik, zar) == isteklilik_karari_spec(Some(p), esik, !zar),
        isteklilik_karari_spec(Some(p), p as int, zar),
        !isteklilik_karari_spec(Some(p), p + 1, zar),
        p >= esik ==> isteklilik_karari_spec(Some(p), esik, zar),
        p < esik ==> !isteklilik_karari_spec(Some(p), esik, zar),
        isteklilik_karari_spec(None, esik, zar) == zar,
        katilim_spec(false, false, Some(isteklilik_karari_spec(Some(p), isteklilik_esigi_spec(cesaret, false), zar)))
            == (p + 0 >= isteklilik_esigi_spec(cesaret, false)),
        p as int == isteklilik_esigi_spec(cesaret, false) + 1 ==> !katilim_spec(
            false,
            false,
            Some(isteklilik_karari_spec(Some(p), isteklilik_esigi_spec(cesaret, true), zar)),
        ),
{
}

// ---------- zaman aşımı ----------

/// Açık, meşgul olmayan ve otuz dakikadır sessiz sohbet zaman aşımı turunda kapanır.
pub proof fn sessiz_sohbet_kapanir(d: Durum, simdi: u64, kanal: u64)
    requires
        d.sohbetler@.contains_key(kanal),
        d.son_aktivite@.contains_key(kanal),
        d.son_aktivite@[kanal] + SOHBET_ZAMAN_ASIMI <= simdi,
        !d.mesgul@.contains(kanal),
    ensures
        kapanacaklar(d, simdi).contains(kanal),
        ({
            let k = kapanacaklar(d, simdi);
            let h = yorumsuz_haberler(
                d.haber_bekleyen@.remove_keys(k),
                acik_aktivite(d).remove_keys(k),
                simdi,
            );
            !d.sohbetler@.remove_keys(k).remove_keys(h).contains_key(kanal)
        }),
{
}

/// Cevap üretilen sohbet zaman aşımıyla kapanmaz.
pub proof fn mesgul_sohbet_kapanmaz(d: Durum, simdi: u64, kanal: u64)
    requires
        d.mesgul@.contains(kanal),
    ensures
        !kapanacaklar(d, simdi).contains(kanal),
{
}

// ---------- sınırlar ----------

/// Sohbet geçmişi sınırı aşmaz (aşmıyorsa) ve yeni mesaj her zaman en sonda kalır.
pub proof fn sohbet_gecmisi_sinirli(g: Seq<(Rol, Seq<char>)>, satir: Seq<char>)
    ensures
        g.len() < SOHBET_BOYU ==> kullanici_eklenmis(g, satir).len() == g.len() + 1,
        kullanici_eklenmis(g, satir).len() <= SOHBET_BOYU,
        kullanici_eklenmis(g, satir).last() == (Rol::Kullanici, satir),
{
    let e = g.push((Rol::Kullanici, satir));
    if e.len() > SOHBET_BOYU {
        let s = e.skip(e.len() - SOHBET_BOYU);
        assert(s.last() == e.last());
    }
}

/// Kişinin puanı, model ne derse desin, her güncellemeden sonra -10 ile 10 arasındadır
/// (favori kişininki 10); sınır içindeki bir puanı bir kayıt en çok üç oynatır.
pub proof fn puan_sinirda_kalir(puan: int, degisim: int, favori: bool)
    ensures
        ({
            let yeni = if favori {
                10
            } else {
                sinirla(puan + sinirla(degisim, -3, 3), -10, 10)
            };
            -10 <= yeni <= 10
        }),
        -10 <= puan <= 10 ==> -3 <= sinirla(puan + sinirla(degisim, -3, 3), -10, 10) - puan <= 3,
{
}

proof fn lemma_tekrarsiz_ekleme(var_olan: Seq<Seq<char>>, yeni: Seq<Seq<char>>, kucuk: bool)
    requires
        var_olan.no_duplicates(),
    ensures
        (if kucuk {
            etiket_eklenmis(var_olan, yeni)
        } else {
            bilgi_eklenmis(var_olan, yeni)
        }).no_duplicates(),
    decreases yeni.len(),
{
    if yeni.len() > 0 {
        lemma_tekrarsiz_ekleme(var_olan, yeni.drop_last(), kucuk);
        let f = if kucuk {
            etiket_eklenmis(var_olan, yeni.drop_last())
        } else {
            bilgi_eklenmis(var_olan, yeni.drop_last())
        };
        let t = if kucuk {
            crate::yardimci::kucuk_harf_metni(kirp(yeni.last()))
        } else {
            kirp(yeni.last())
        };
        if t.len() > 0 && !f.contains(t) {
            let g = f.push(t);
            assert forall|i: int, j: int| 0 <= i < g.len() && 0 <= j < g.len() && i != j implies g[i] != g[j] by {
                if i < f.len() && j < f.len() {
                } else if i == f.len() {
                    assert(f.contains(f[j]));
                } else {
                    assert(f.contains(f[i]));
                }
            }
        }
    }
}

/// Kişi kartında bilgiler ve etiketler tekrarsız birikir.
pub proof fn bilgi_ve_etiket_tekrarsiz(var_olan: Seq<Seq<char>>, yeni: Seq<Seq<char>>)
    requires
        var_olan.no_duplicates(),
    ensures
        bilgi_eklenmis(var_olan, yeni).no_duplicates(),
        etiket_eklenmis(var_olan, yeni).no_duplicates(),
{
    lemma_tekrarsiz_ekleme(var_olan, yeni, false);
    lemma_tekrarsiz_ekleme(var_olan, yeni, true);
}

// ---------- cevap turunun kilidi ----------

/// Cevap turu kilidi her çıkışta bırakılır: tur ancak sohbet açıkken ve kanal boştayken
/// başlar, başlamazsa meşgul kanallar değişmez; başlayan tur hangi yoldan biterse bitsin
/// (cevap, susma, boş akış, hata, yarıda kesilme) kanal yeniden boşalır ve meşgul kanallar
/// turdan önceki hâline döner.
pub proof fn kilit_her_cikista_birakilir(mesgul: Set<u64>, acik: bool, kanal: u64, yeni_mesaj: bool)
    ensures
        ({
            let (m1, e1) = tur_adimi_spec(mesgul, acik, kanal, TurOlayi::Basla);
            let (m2, e2) = tur_adimi_spec(m1, acik, kanal, TurOlayi::Bitti { yeni_mesaj });
            &&& (e1 is Uret) <==> (acik && !mesgul.contains(kanal))
            &&& e1 is Birak ==> m1 == mesgul
            &&& e1 is Uret ==> m1.contains(kanal) && !m2.contains(kanal) && m2 == mesgul
            &&& (e2 is Yeniden) <==> yeni_mesaj
        }),
        forall|m: Set<u64>|
            !(#[trigger] tur_adimi_spec(m, acik, kanal, TurOlayi::Bitti { yeni_mesaj })).0.contains(kanal),
{
    let (m1, e1) = tur_adimi_spec(mesgul, acik, kanal, TurOlayi::Basla);
    if e1 is Uret {
        assert(m1.remove(kanal) =~= mesgul);
    }
}

// ---------- akışın mesajları ----------

/// 10'un kuvveti.
spec fn on_kuvvet(k: nat) -> nat
    decreases k,
{
    if k == 0 {
        1
    } else {
        10 * on_kuvvet((k - 1) as nat)
    }
}

proof fn lemma_ondalik_boyu(n: nat, k: nat)
    requires
        1 <= k,
        n < on_kuvvet(k),
    ensures
        ondalik(n).len() <= k,
    decreases k,
{
    if n >= 10 {
        if k == 1 {
            assert(on_kuvvet(1) == 10 * on_kuvvet(0));
        }
        let m = on_kuvvet((k - 1) as nat);
        assert(n / 10 < m) by (nonlinear_arith)
            requires
                n < 10 * m,
        ;
        lemma_ondalik_boyu(n / 10, (k - 1) as nat);
    }
}

proof fn lemma_kelime_sayisi(s: Seq<char>)
    ensures
        kelimeler(s).len() <= s.len(),
    decreases s.len(),
{
    if s.len() > 0 {
        if bosluk_mu(s[0]) {
            lemma_kelime_sayisi(s.drop_first());
        } else {
            lemma_kelime_boyu(s);
            lemma_kelime_sayisi(s.skip(kelime_boyu(s) as int));
        }
    }
}

proof fn lemma_kelimeler_icermez(s: Seq<char>, c: char)
    requires
        !s.contains(c),
    ensures
        forall|i: int| 0 <= i < kelimeler(s).len() ==> !(#[trigger] kelimeler(s)[i]).contains(c),
    decreases s.len(),
{
    if s.len() == 0 {
        assert(kelimeler(s).len() == 0);
    } else {
        if bosluk_mu(s[0]) {
            assert(!s.drop_first().contains(c)) by {
                if s.drop_first().contains(c) {
                    let j = choose|j: int| 0 <= j < s.drop_first().len() && s.drop_first()[j] == c;
                    assert(s[j + 1] == c);
                }
            }
            lemma_kelimeler_icermez(s.drop_first(), c);
            assert(kelimeler(s) == kelimeler(s.drop_first()));
        } else {
            lemma_kelime_boyu(s);
            let n = kelime_boyu(s) as int;
            assert(!s.skip(n).contains(c)) by {
                if s.skip(n).contains(c) {
                    let j = choose|j: int| 0 <= j < s.skip(n).len() && s.skip(n)[j] == c;
                    assert(s[j + n] == c);
                }
            }
            assert(!s.take(n).contains(c)) by {
                if s.take(n).contains(c) {
                    let j = choose|j: int| 0 <= j < s.take(n).len() && s.take(n)[j] == c;
                    assert(s[j] == c);
                }
            }
            lemma_kelimeler_icermez(s.skip(n), c);
            let ws = kelimeler(s);
            assert(ws == seq![s.take(n)] + kelimeler(s.skip(n)));
            assert forall|i: int| 0 <= i < ws.len() implies !(#[trigger] ws[i]).contains(c) by {
                if i > 0 {
                    assert(ws[i] == kelimeler(s.skip(n))[i - 1]);
                }
            }
        }
    }
}

proof fn lemma_birlestir_icermez(ws: Seq<Seq<char>>, ayrac: Seq<char>, c: char)
    requires
        forall|i: int| 0 <= i < ws.len() ==> !(#[trigger] ws[i]).contains(c),
        !ayrac.contains(c),
    ensures
        !birlestir(ws, ayrac).contains(c),
    decreases ws.len(),
{
    if ws.len() == 1 {
        assert(!ws[0].contains(c));
    } else if ws.len() > 1 {
        let o = ws.drop_last();
        assert forall|i: int| 0 <= i < o.len() implies !(#[trigger] o[i]).contains(c) by {
            assert(o[i] == ws[i]);
        }
        lemma_birlestir_icermez(o, ayrac, c);
        let a = birlestir(o, ayrac);
        let l = ws.last();
        assert(!ws[ws.len() - 1].contains(c));
        let b = a + ayrac + l;
        if b.contains(c) {
            let j = choose|j: int| 0 <= j < b.len() && b[j] == c;
            if j < a.len() {
                assert(a[j] == c);
            } else if j < a.len() + ayrac.len() {
                assert(ayrac[j - a.len()] == c);
            } else {
                assert(l[j - a.len() - ayrac.len()] == c);
            }
        }
    }
}

proof fn lemma_parcalar_icermez(s: Seq<char>, sinir: nat, c: char)
    requires
        sinir > 0,
        !s.contains(c),
        !bosluk_mu(c),
    ensures
        forall|i: int| 0 <= i < parcalar(s, sinir).len() ==> !(#[trigger] parcalar(s, sinir)[i]).contains(c),
{
    bol_kayipsiz(s, sinir);
    let ps = parcalar(s, sinir);
    assert forall|i: int| 0 <= i < ps.len() implies !(#[trigger] ps[i]).contains(c) by {
        if ps[i].contains(c) {
            let j = choose|j: int| 0 <= j < ps[i].len() && ps[i][j] == c;
            let f = ps.flatten();
            assert(ps =~= ps.take(i) + seq![ps[i]] + ps.skip(i + 1));
            lemma_flatten_concat(ps.take(i) + seq![ps[i]], ps.skip(i + 1));
            lemma_flatten_concat(ps.take(i), seq![ps[i]]);
            seq![ps[i]].lemma_flatten_singleton();
            let k = ps.take(i).flatten().len() + j;
            assert(f[k] == c);
            let p = |x: char| !bosluk_mu(x);
            f.lemma_filter_contains(p, k);
            assert(dolu(s).contains(c));
            s.lemma_filter_contains_rev(p, c);
        }
    }
}

proof fn lemma_borusuz_kacis(s: Seq<char>)
    requires
        !s.contains('|'),
    ensures
        degistir(s, seq!['|'], seq!['\\', '|']) == s,
    decreases s.len(),
{
    if s.len() > 0 {
        assert(!basla(s, seq!['|'])) by {
            if basla(s, seq!['|']) {
                assert(s.take(1)[0] == s[0]);
            }
        }
        assert(!s.drop_first().contains('|')) by {
            if s.drop_first().contains('|') {
                let j = choose|j: int| 0 <= j < s.drop_first().len() && s.drop_first()[j] == '|';
                assert(s[j + 1] == '|');
            }
        }
        lemma_borusuz_kacis(s.drop_first());
        assert(seq![s[0]] + s.drop_first() =~= s);
    }
}

/// Akışın Discord'a dökümünde her mesaj boş değildir ve en çok 1900 karakterdir: uzun
/// düşünce ve uzun cevap yeni mesajlara bölünür, düşünürken gösterilen sayaç da sığar.
/// Düşüncede '|' varsa spoiler kaçışı bloğu uzatır; yasa '|' içermeyen düşünceler içindir.
pub proof fn akis_mesajlari_sinira_sigar(kip: DusunmeKip, dusunce: Seq<char>, cevap: Seq<char>, bitti: bool)
    requires
        dusunce.len() <= usize::MAX,
        !dusunce.contains('|'),
    ensures
        forall|i: int|
            0 <= i < akis_gorunum_spec(kip, dusunce, cevap, bitti).len() ==> 0 < (
            #[trigger] akis_gorunum_spec(kip, dusunce, cevap, bitti)[i]).len() <= MESAJ_SINIRI,
{
    let g = akis_gorunum_spec(kip, dusunce, cevap, bitti);
    let kesit = akis_kesiti_spec(cevap, bitti);
    if kirp(kesit).len() == 0 && kirp(dusunce).len() > 0 {
        match kip {
            DusunmeKip::Gizle => {
                lemma_kelime_sayisi(dusunce);
                reveal_with_fuel(on_kuvvet, 21);
                assert(on_kuvvet(20) == 100000000000000000000nat);
                lemma_ondalik_boyu(kelimeler(dusunce).len(), 20);
                reveal_strlit("Düşünüyorum... Şu ana kadar ");
                reveal_strlit(" kelime düşündüm.");
                assert(g =~= seq![dusunce_sayaci_spec(dusunce)]);
            },
            DusunmeKip::Goster => {
                reveal_strlit("Düşünüyorum...");
                assert(g =~= seq!["Düşünüyorum..."@]);
            },
            _ => {},
        }
    } else {
        let d = daralt(dusunce);
        lemma_kelimeler_icermez(dusunce, '|');
        lemma_birlestir_icermez(kelimeler(dusunce), seq![' '], '|');
        tur_satir_siniri(kesit);
        let sat = cevap_parcala_spec(kesit).satirlar;
        if kip == DusunmeKip::Goster && d.len() > 0 {
            let sp = parcalar(d, (MESAJ_SINIRI - 4) as nat);
            let kp = parcalar(d, (MESAJ_SINIRI - 10) as nat);
            lemma_parcalar_icermez(d, (MESAJ_SINIRI - 4) as nat, '|');
            bol_kayipsiz(d, (MESAJ_SINIRI - 4) as nat);
            bol_kayipsiz(d, (MESAJ_SINIRI - 10) as nat);
            let a = sp.map_values(|p: Seq<char>| spoiler_spec(p));
            let b = kod_bloklari_spec(d);
            assert(g == a + b + sat);
            reveal_strlit("```\n");
            reveal_strlit("\n```");
            assert forall|i: int| 0 <= i < g.len() implies 0 < (#[trigger] g[i]).len() <= MESAJ_SINIRI by {
                if i < a.len() {
                    lemma_borusuz_kacis(sp[i]);
                    assert(g[i] == spoiler_spec(sp[i]));
                } else if i < a.len() + b.len() {
                    assert(g[i] == kod_blogu(kp[i - a.len()]));
                } else {
                    assert(g[i] == sat[i - a.len() - b.len()]);
                }
            }
        } else {
            assert(g =~= sat);
        }
    }
}

/// Gündem günlüğü yeniden yazılırken girdiler aralarında boş satırla birleştirilir; bu
/// metin yeniden okununca aynı girdiler aynı sırayla çıkar. Metinde `\r` yoksa ve her
/// "## " satırında başlıktan sonra boş olmayan bir şey varsa geçerlidir.
pub proof fn gundem_girdileri_geri_okunur(t: Seq<char>)
    requires
        forall|j: int| 0 <= j < t.len() ==> t[j] != '\r',
        forall|i: int|
            0 <= i < satirlar(t).len() && basla(#[trigger] satirlar(t)[i], "## "@) ==> kirp(
                satirlar(t)[i].skip(3),
            ).len() > 0,
    ensures
        entries_spec(birlestir(entries_spec(t), seq!['\n', '\n'])) == entries_spec(t),
{
    lemma_girdiler_duzgun(t);
    lemma_duzgunler_geri_okunur(entries_spec(t));
}

/// Cevabın protokol metni (satırlar, varsa ardından "tepki: emoji") model geçmişine yazılır;
/// bu metin yeniden çözülünce aynı satırlar ve aynı tepki çıkar, susma kararı çıkmaz.
/// Satırlar en çok dört ve birbirinden farklıdır; her biri yeniden okunabilir bir satırdır
/// (boş değil, satır sonu yok, en çok 1900 karakter, süsten arınmış, susma işareti, tepki
/// satırı, "'" kırıntısı ya da numaralı satır değil); tepki kendi emojisidir ve tepki satırı
/// susma işareti sayılmaz. "tepki"nin küçük harfe çevrilince değişmediğini
/// `protokol::tepki_basligi_korunur` çeviriyi yaparak gösterir.
pub proof fn protokol_metni_geri_cozulur(c: CevapModeli)
    requires
        geri_yazilir_cevap(c),
        kucult_spec("tepki"@) == "tepki"@,
    ensures
        cevap_parcala_spec(protokol_metni_spec(c)).satirlar == c.satirlar,
        cevap_parcala_spec(protokol_metni_spec(c)).tepki == c.tepki,
        !cevap_parcala_spec(protokol_metni_spec(c)).sus,
{
    lemma_protokol_geri_cozulur(c);
}

proof fn lemma_duzlestirme_kirpik(xss: Seq<Seq<Seq<char>>>)
    requires
        forall|i: int, j: int|
            0 <= i < xss.len() && 0 <= j < xss[i].len() ==> kirp(#[trigger] xss[i][j]) == xss[i][j] && gecmez(
                xss[i][j],
                '\n',
            ),
    ensures
        forall|k: int|
            0 <= k < xss.flatten().len() ==> kirp(#[trigger] xss.flatten()[k]) == xss.flatten()[k] && gecmez(
                xss.flatten()[k],
                '\n',
            ),
    decreases xss.len(),
{
    if xss.len() > 0 {
        let ilk = xss.first();
        let geri = xss.drop_first();
        assert forall|i: int, j: int| 0 <= i < geri.len() && 0 <= j < geri[i].len() implies kirp(#[trigger] geri[i][j])
            == geri[i][j] && gecmez(geri[i][j], '\n') by {
            assert(geri[i] == xss[i + 1]);
        }
        lemma_duzlestirme_kirpik(geri);
        let f = xss.flatten();
        assert(f == ilk + geri.flatten());
        assert forall|k: int| 0 <= k < f.len() implies kirp(#[trigger] f[k]) == f[k] && gecmez(f[k], '\n') by {
            if k < ilk.len() {
                assert(f[k] == xss[0][k]);
            } else {
                assert(f[k] == geri.flatten()[k - ilk.len()]);
            }
        }
    }
}

/// Giden her mesaj kırpılmıştır ve satır sonu içermez: model cevabı satırlara bölünür,
/// her satır kırpılıp temizlenir, sınırı aşan satırın parçaları da kırpılır.
pub proof fn tur_parcalari_kirpik(metin: Seq<char>)
    ensures
        forall|i: int|
            0 <= i < cevap_parcala_spec(metin).satirlar.len() ==> kirp(
                #[trigger] cevap_parcala_spec(metin).satirlar[i],
            ) == cevap_parcala_spec(metin).satirlar[i] && gecmez(
                cevap_parcala_spec(metin).satirlar[i],
                '\n',
            ),
{
    let xs = ayir(metin, '\n');
    let liste = numarali(xs) >= 2;
    lemma_ayir_ayracsiz(metin, '\n');
    assert forall|i: int| 0 <= i < xs.len() implies gecmez(#[trigger] xs[i], '\n') by {
        assert forall|j: int| 0 <= j < xs[i].len() implies xs[i][j] != '\n' by {
            assert(ayir(metin, '\n')[i][j] != '\n');
        }
    }
    lemma_satirlar_gecmez(xs, liste, '\n');
    let st = satirlari_isle(xs, liste);
    let xss = st.satirlar.map_values(|s: Seq<char>| mesaj_parcalari(s));
    assert forall|i: int, j: int| 0 <= i < xss.len() && 0 <= j < xss[i].len() implies kirp(#[trigger] xss[i][j])
        == xss[i][j] && gecmez(xss[i][j], '\n') by {
        let l = st.satirlar[i];
        assert(gecmez(l, '\n') && kirp(l) == l);
        lemma_bol_kalan_kirpik(l, MESAJ_SINIRI as nat, '\n');
        assert(xss[i] == bol_kalan(l, MESAJ_SINIRI as nat));
    }
    lemma_duzlestirme_kirpik(xss);
}

} // verus!
