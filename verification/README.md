# discord-bot

Bir Discord sunucusunda takılan, insanları tanıyan ve zamanla kişilik geliştiren botun
doğrulanmış çekirdeği. Kararların hepsi Verus ile sözleşmeleri kanıtlanmış Rust
fonksiyonlarıdır; ağ, disk ve zamanlayıcılar ince bir kabukta kalır.

## düzen

- `src/` — kitaplık (`discord_bot`):
  - `metin`, `yardimci`, `bolme` — kırpma, satırlar, arama/değiştirme, uzun satırın bölünmesi
  - `protokol` — modelin cevabının satırlara, tepkiye ve susmaya ayrılması
  - `akis`, `akis_okuyucu`, `gonderim` — akışlı cevabın okunması, görünümü ve yazılması
  - `istek` — istek gövdesinin reasoning/bütçe alanları, yeniden deneme kararları
  - `sohbet`, `karar`, `tur`, `kapanis` — sohbet durumu, katılma kararı, cevap turu, zaman aşımı
  - `sistem`, `istem` — modele giden sistem metni ve yardımcı çağrıların girdileri
  - `ayiklama`, `gunluk`, `ozet` — yardımcı çağrıların cevaplarından kararlar, hafıza kayıtları
  - `gundem`, `arastirma`, `ajan` — RSS, sayfa metni, araştırma, haber seçimi, kanaatler
  - `dongu`, `olay`, `tarama`, `kurulum` — arka plan döngülerinin ve Discord olaylarının
    kararları, geçmiş taraması, ortamdan yapılandırma
  - `yasalar` — birden çok fonksiyonu bağlayan yasaların kanıtları
- `tests/` — kitaplığın testleri.
- `app/` — çalıştırılabilir kabuk: ortam değişkenleri, model sağlayıcısına HTTP, RSS ve
  sayfa okuma, terminalden sohbet tezgâhı (`chat`).

## çalıştırma

```
OPENROUTER_KEY=... cargo run -- chat     # terminalden sohbet tezgâhı
cargo run -- haber                        # haber adaylarını listeler
cargo run -- sayfa <adres>                # bir sayfanın modele giden metni
```
