//! Yardımcı model çağrılarına giden metinler: şablonların doldurulması, analiz girdisi,
//! isteklilik ve hedef seçimi istekleri, hocanın okuduğu özet.
use vstd::prelude::*;
use crate::metin::{birlestir, degistir, degistirilmis, karakterler, kirp, metne};
use crate::sohbet::{gecmis_modeli, hafiza_satirlari, metinler, son_mesajlar, son_n, Durum, Mesaj};
use crate::yardimci::{birlestirilmis, ekle_metin};

verus! {

broadcast use vstd::string::group_string_axioms;

/// Şablondaki `anahtar` geçişleri `deger` ile doldurulur (`str::replace`).
pub fn yerlestir(sablon: &str, anahtar: &str, deger: &str) -> (r: String)
    requires
        anahtar@.len() > 0,
    ensures
        r@ == degistir(sablon@, anahtar@, deger@),
{
    let v = degistirilmis(&karakterler(sablon), &karakterler(anahtar), &karakterler(deger));
    metne(&v)
}

/// Kişiliksiz analiz çağrısının girdisi: metin, ayraç, talimat.
pub fn analiz_girdisi(metin: &str, talimat: &str) -> (r: String)
    ensures
        r@ == metin@ + "\n\n---\n\n"@ + talimat@,
{
    let mut v: Vec<char> = Vec::new();
    ekle_metin(&mut v, metin);
    ekle_metin(&mut v, "\n\n---\n\n");
    ekle_metin(&mut v, talimat);
    metne(&v)
}

/// İsteklilik isteği: son on iki mesaj boşsa sorulmaz; yoksa sabit blok (analist talimatı,
/// grup profili, kişi dizini) ve girdi ("SON MESAJLAR" ve mesajlar).
pub open spec fn isteklilik_istegi_spec(analist: Seq<char>, d: Durum) -> Option<(Seq<char>, Seq<char>)> {
    let baglam = birlestir(son_n(hafiza_satirlari(d), 12), seq!['\n']);
    if kirp(baglam).len() == 0 {
        None
    } else {
        Some(
            (
                analist + "\n\nGRUP PROFİLİ\n"@ + d.profil@ + "\n\nKİŞİ DİZİNİ\n"@ + d.dizin@,
                "SON MESAJLAR\n"@ + baglam,
            ),
        )
    }
}

pub fn isteklilik_istegi(analist: &str, d: &Durum) -> (r: Option<(String, String)>)
    ensures
        match r {
            None => isteklilik_istegi_spec(analist@, *d) is None,
            Some((s, g)) => isteklilik_istegi_spec(analist@, *d) == Some((s@, g@)),
        },
{
    let baglam = son_mesajlar(d, 12);
    let bv = karakterler(baglam.as_str());
    let k = crate::metin::kirpilmis(&bv);
    if k.len() == 0 {
        return None;
    }
    let mut s: Vec<char> = Vec::new();
    ekle_metin(&mut s, analist);
    ekle_metin(&mut s, "\n\nGRUP PROFİLİ\n");
    ekle_metin(&mut s, d.profil.as_str());
    ekle_metin(&mut s, "\n\nKİŞİ DİZİNİ\n");
    ekle_metin(&mut s, d.dizin.as_str());
    let mut g: Vec<char> = Vec::new();
    ekle_metin(&mut g, "SON MESAJLAR\n");
    ekle_metin(&mut g, baglam.as_str());
    Some((metne(&s), metne(&g)))
}

/// Hedef seçimi isteği: sabit blok analist talimatı ve ad yerleştirilmiş hedef şablonu;
/// değişken blok bekleyen adlar, her biri "- " ile; girdi son on iki mesaj.
pub open spec fn hedef_istegi_spec(analist: Seq<char>, sablon: Seq<char>, d: Durum, bekleyenler: Seq<Seq<char>>) -> (Seq<char>, Seq<char>, Seq<char>) {
    (
        analist + "\n\n"@ + degistir(sablon, "{ad}"@, d.bot_adi@),
        "BEKLEYENLER\n- "@ + birlestir(bekleyenler, "\n- "@),
        "SON MESAJLAR\n"@ + birlestir(son_n(hafiza_satirlari(d), 12), seq!['\n']),
    )
}

pub fn hedef_istegi(analist: &str, sablon: &str, d: &Durum, bekleyenler: &Vec<String>) -> (r: (
    String,
    String,
    String,
))
    ensures
        (r.0@, r.1@, r.2@) == hedef_istegi_spec(analist@, sablon@, *d, bekleyenler.deep_view()),
{
    proof {
        reveal_strlit("{ad}");
    }
    let doldurulmus = yerlestir(sablon, "{ad}", d.bot_adi.as_str());
    let mut s: Vec<char> = Vec::new();
    ekle_metin(&mut s, analist);
    ekle_metin(&mut s, "\n\n");
    ekle_metin(&mut s, doldurulmus.as_str());
    let liste = birlestirilmis(bekleyenler, "\n- ");
    let mut b: Vec<char> = Vec::new();
    ekle_metin(&mut b, "BEKLEYENLER\n- ");
    ekle_metin(&mut b, liste.as_str());
    let baglam = son_mesajlar(d, 12);
    let mut g: Vec<char> = Vec::new();
    ekle_metin(&mut g, "SON MESAJLAR\n");
    ekle_metin(&mut g, baglam.as_str());
    (metne(&s), metne(&b), metne(&g))
}

/// Boşsa yerine konan açıklama.
pub open spec fn ya_da(s: Seq<char>, bos_ise: Seq<char>) -> Seq<char> {
    if s.len() == 0 {
        bos_ise
    } else {
        s
    }
}

/// Hocanın okuduğu özet: hafıza boşsa yok; yoksa grup profili, kişi dizini, gündem notları,
/// botun son hali, şu anki huyu, son iki yüz mesaj ve botun kendi son mesajları; boş
/// bölümlerin yerine açıklama konur.
pub open spec fn hoca_girdisi_spec(d: Durum) -> Option<Seq<char>> {
    if d.hafiza@.len() == 0 {
        None
    } else {
        Some(
            "GRUP PROFİLİ\n"@ + d.profil@ + "\n\nKİŞİ DİZİNİ\n"@ + d.dizin@
                + "\n\nGÜNDEM NOTLARI (internette okuyup düşündükleri)\n"@ + ya_da(
                d.gundem@,
                "(henüz gezmedi)"@,
            ) + "\n\nBOTUN SON HALİ\n"@ + ya_da(d.kendim@, "(bir şey yok)"@) + "\n\nŞU ANKİ HUYUN\n"@
                + ya_da(d.huy@, "(henüz yok, ilk kez yazıyorsun)"@) + "\n\nSON KONUŞMALAR\n"@
                + birlestir(son_n(hafiza_satirlari(d), 200), seq!['\n'])
                + "\n\nBOTUN KENDİ SON MESAJLARI\n"@ + ya_da(
                birlestir(metinler(d.kendi_mesajlarim@), seq!['\n']),
                "(henüz konuşmadı)"@,
            ),
        )
    }
}

fn ya_da_ekle(v: &mut Vec<char>, s: &str, bos_ise: &str)
    ensures
        final(v)@ == old(v)@ + ya_da(s@, bos_ise@),
{
    if s.unicode_len() == 0 {
        ekle_metin(v, bos_ise);
    } else {
        ekle_metin(v, s);
    }
}

pub fn hoca_girdisi(d: &Durum) -> (r: Option<String>)
    ensures
        match r {
            None => hoca_girdisi_spec(*d) is None,
            Some(s) => hoca_girdisi_spec(*d) == Some(s@),
        },
{
    if d.hafiza.len() == 0 {
        return None;
    }
    let kendi = crate::sohbet::satirlari_birlestir(&d.kendi_mesajlarim, 0);
    assert(metinler(d.kendi_mesajlarim@).skip(0) =~= metinler(d.kendi_mesajlarim@));
    let son = son_mesajlar(d, 200);
    let mut v: Vec<char> = Vec::new();
    ekle_metin(&mut v, "GRUP PROFİLİ\n");
    ekle_metin(&mut v, d.profil.as_str());
    ekle_metin(&mut v, "\n\nKİŞİ DİZİNİ\n");
    ekle_metin(&mut v, d.dizin.as_str());
    ekle_metin(&mut v, "\n\nGÜNDEM NOTLARI (internette okuyup düşündükleri)\n");
    ya_da_ekle(&mut v, d.gundem.as_str(), "(henüz gezmedi)");
    ekle_metin(&mut v, "\n\nBOTUN SON HALİ\n");
    ya_da_ekle(&mut v, d.kendim.as_str(), "(bir şey yok)");
    ekle_metin(&mut v, "\n\nŞU ANKİ HUYUN\n");
    ya_da_ekle(&mut v, d.huy.as_str(), "(henüz yok, ilk kez yazıyorsun)");
    ekle_metin(&mut v, "\n\nSON KONUŞMALAR\n");
    ekle_metin(&mut v, son.as_str());
    ekle_metin(&mut v, "\n\nBOTUN KENDİ SON MESAJLARI\n");
    ya_da_ekle(&mut v, kendi.as_str(), "(henüz konuşmadı)");
    Some(metne(&v))
}

/// Ruh hali çağrısının geçmişi: sohbet boşsa çağrılmaz; görseller bu küçük çağrıya
/// gitmez, mesajların yalnız rolü ve metni kalır.
pub fn ruh_hali_gecmisi(gecmis: &Vec<Mesaj>) -> (r: Option<Vec<Mesaj>>)
    ensures
        match r {
            None => gecmis@.len() == 0,
            Some(g) => gecmis@.len() > 0 && gecmis_modeli(g@) == gecmis_modeli(gecmis@) && forall|i: int|
                0 <= i < g@.len() ==> (#[trigger] g@[i]).resim is None,
        },
{
    if gecmis.len() == 0 {
        return None;
    }
    let mut g: Vec<Mesaj> = Vec::new();
    let mut i: usize = 0;
    while i < gecmis.len()
        invariant
            i <= gecmis@.len(),
            gecmis_modeli(g@) == gecmis_modeli(gecmis@.take(i as int)),
            forall|k: int| 0 <= k < g@.len() ==> (#[trigger] g@[k]).resim is None,
        decreases gecmis@.len() - i,
    {
        let m = Mesaj { role: gecmis[i].role, content: gecmis[i].content.clone(), resim: None };
        let ghost g0 = g@;
        g.push(m);
        assert(gecmis_modeli(g@) =~= gecmis_modeli(g0).push((gecmis@[i as int].role, gecmis@[i as int].content@)));
        assert(gecmis@.take(i + 1) =~= gecmis@.take(i as int).push(gecmis@[i as int]));
        assert(gecmis_modeli(gecmis@.take(i + 1)) =~= gecmis_modeli(gecmis@.take(i as int)).push(
            (gecmis@[i as int].role, gecmis@[i as int].content@),
        ));
        i += 1;
    }
    assert(gecmis@.take(i as int) =~= gecmis@);
    Some(g)
}

} // verus!
